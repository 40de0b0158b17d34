//! The transaction templates the generator draws from: adding a currency
//! to an account, creating parent and child VASP accounts, and rotating an
//! authentication key; and the registry that holds them.

use vstd::prelude::*;

use crate::abstract_state::AbstractMetadata;
use crate::abstract_state::Account;
use crate::abstract_state::Constraint;
use crate::abstract_state::Effect;
use crate::abstract_state::resource;
use crate::account_config;
use crate::chain_state::AbstractChainState;
use crate::chain_state::balance_resource_of;
use crate::registered_types::TypeRegistry;
use crate::registered_types::build_type_registry;
use crate::transaction::AbstractTransactionArgument;
use crate::transaction::EffectInstantiationArg;
use crate::transaction::InstantiatedTransaction;
use crate::transaction::StdlibScript;
use crate::transaction::TransactionArgumentType;
use crate::transaction::TyConstraint;
use crate::transaction::ty_constraints;
use crate::txn_executor::TransactionArgument;
use crate::types::AccountAddress;
use crate::types::Identifier;
use crate::types::StructTag;
use crate::types::TypeTag;

verus! {

/// A struct type of the core code address, with the given type actuals.
pub fn core_type(module: &str, name: &str, type_params: Vec<TypeTag>) -> (r: TypeTag)
    ensures
        r@ is Struct,
        r@ == crate::types::TypeTagV::Struct(
            crate::types::StructTagV {
                address: Seq::new(crate::types::ADDRESS_LENGTH as nat, |i: int| 0u8),
                module: module@,
                name: name@,
                type_params: crate::types::views_of_tags(type_params@),
            },
        ),
{
    let r = TypeTag::Struct(
        StructTag {
            address: account_config::core_code_address(),
            module: Identifier::new(module.to_owned()),
            name: Identifier::new(name.to_owned()),
            type_params,
        },
    );
    proof {
        assert(r@ =~= crate::types::TypeTagV::Struct(
            crate::types::StructTagV {
                address: Seq::new(crate::types::ADDRESS_LENGTH as nat, |i: int| 0u8),
                module: module@,
                name: name@,
                type_params: crate::types::views_of_tags(type_params@),
            },
        ));
    }
    r
}

/// The registry of types the templates draw from: the three currencies and
/// the four account types of the standard configuration.
pub fn type_registry() -> (r: TypeRegistry) {
    let mut entries: Vec<(TypeTag, Vec<AbstractMetadata>)> = Vec::new();
    let mut currency_meta: Vec<AbstractMetadata> = Vec::new();
    currency_meta.push(AbstractMetadata::IsCurrency);
    entries.push((core_type("LBR", "T", Vec::new()), clone_metas(&currency_meta)));
    entries.push((core_type("Coin1", "T", Vec::new()), clone_metas(&currency_meta)));
    entries.push((core_type("Coin2", "T", Vec::new()), clone_metas(&currency_meta)));
    let mut account_meta: Vec<AbstractMetadata> = Vec::new();
    account_meta.push(AbstractMetadata::IsAccountType);
    let mut empty_param: Vec<TypeTag> = Vec::new();
    empty_param.push(core_type("Empty", "T", Vec::new()));
    entries.push((core_type("AccountType", "T", empty_param), clone_metas(&account_meta)));
    let mut unhosted_param: Vec<TypeTag> = Vec::new();
    unhosted_param.push(core_type("Unhosted", "T", Vec::new()));
    entries.push((core_type("AccountType", "T", unhosted_param), clone_metas(&account_meta)));
    let mut root_param: Vec<TypeTag> = Vec::new();
    root_param.push(core_type("VASP", "RootVASP", Vec::new()));
    entries.push((core_type("AccountType", "T", root_param), clone_metas(&account_meta)));
    let mut child_param: Vec<TypeTag> = Vec::new();
    child_param.push(core_type("VASP", "ChildVASP", Vec::new()));
    entries.push((core_type("AccountType", "T", child_param), clone_metas(&account_meta)));
    build_type_registry(entries)
}

/// Copy a metadata list.
fn clone_metas(v: &Vec<AbstractMetadata>) -> (r: Vec<AbstractMetadata>)
    ensures
        r@ == v@,
{
    let mut out: Vec<AbstractMetadata> = Vec::new();
    let mut i: usize = 0;
    while i < v.len()
        invariant
            i <= v@.len(),
            out@ =~= v@.take(i as int),
        decreases v@.len() - i,
    {
        out.push(v[i]);
        i += 1;
    }
    proof {
        assert(out@ =~= v@);
    }
    out
}

/// The sender specification shared by the templates: an address holding
/// the account resource, plus any extra constraints.
fn sender_with(extra: Vec<Constraint>) -> (r: AbstractTransactionArgument)
    ensures
        r.argument_type is Address,
        r.preconditions@.len() == 1 + extra@.len(),
        r.preconditions@[0] is HasResource,
        r.preconditions@[0] matches Constraint::HasResource(res) ==> res.type_@
            == crate::types::TypeTagV::Struct(
            crate::types::StructTagV {
                address: Seq::new(crate::types::ADDRESS_LENGTH as nat, |i: int| 0u8),
                module: "LibraAccount"@,
                name: "T"@,
                type_params: Seq::empty(),
            },
        ),
        forall|i: int| 0 <= i < extra@.len() ==> #[trigger] r.preconditions@[1 + i] == extra@[i],
{
    proof {
        reveal_strlit("LibraAccount");
        reveal_strlit("T");
    }
    let mut preconditions: Vec<Constraint> = Vec::new();
    preconditions.push(Constraint::HasResource(resource(core_type("LibraAccount", "T", Vec::new()))));
    let mut extra = extra;
    preconditions.append(&mut extra);
    AbstractTransactionArgument { preconditions, argument_type: TransactionArgumentType::Address }
}

/// A template: its sender specification, the metadata its type actuals
/// are drawn by with the constraints each adds, its positional arguments,
/// the script it invokes, and its effects.
pub trait Transaction {
    /// The template's name, as the block log shows it.
    fn name(&self) -> String;

    /// The template, as data.
    fn abstract_(&self) -> AbstractTransaction;

    /// Instantiate the template against the chain state, or nothing when
    /// its constraints cannot be met this round.
    fn instantiate(&self, chain_state: &mut AbstractChainState, rng: &mut rand::rngs::StdRng)
        -> Option<InstantiatedTransaction>;
}

/// A template as data. The effects field names the generator that turns
/// the instantiated arguments into concrete effects.
pub struct AbstractTransaction {
    pub sender_preconditions: AbstractTransactionArgument,
    pub ty_args: Vec<(AbstractMetadata, TyConstraint)>,
    pub args: Vec<AbstractTransactionArgument>,
    pub transaction: StdlibScript,
    pub effects: EffectGen,
}

/// Which effect list a template produces.
#[derive(Debug, Clone, Copy, PartialEq, Eq, Structural)]
pub enum EffectGen {
    AddCurrencyEffects,
    CreateParentVaspEffects,
    CreateChildVaspEffects,
    RotateKeyEffects,
}

/// The effects a new account's creation publishes besides the account
/// itself: its role resource, its event generator, and its balances.
fn creation_effects(
    new_account: Account,
    role_module: &str,
    role_name: &str,
    publish_all_currencies: bool,
    ty_args: &Vec<TypeTag>,
) -> (r: Vec<Effect>) {
    let new_addr = new_account.addr.clone();
    let mut effects: Vec<Effect> = Vec::new();
    effects.push(Effect::CreatesAccount(new_account));
    effects.push(
        Effect::PublishesResource(
            new_addr.clone(),
            resource(core_type("LibraAccount", "T", Vec::new())),
        ),
    );
    let mut role_param: Vec<TypeTag> = Vec::new();
    role_param.push(core_type(role_module, role_name, Vec::new()));
    effects.push(
        Effect::PublishesResource(
            new_addr.clone(),
            resource(core_type("LibraAccount", "Role", role_param)),
        ),
    );
    effects.push(
        Effect::PublishesResource(
            new_addr.clone(),
            resource(core_type("Event", "EventHandleGenerator", Vec::new())),
        ),
    );
    if publish_all_currencies {
        let mut c1: Vec<TypeTag> = Vec::new();
        c1.push(core_type("Coin1", "T", Vec::new()));
        effects.push(
            Effect::PublishesResource(
                new_addr.clone(),
                resource(core_type("LibraAccount", "Balance", c1)),
            ),
        );
        let mut c2: Vec<TypeTag> = Vec::new();
        c2.push(core_type("Coin2", "T", Vec::new()));
        effects.push(
            Effect::PublishesResource(
                new_addr.clone(),
                resource(core_type("LibraAccount", "Balance", c2)),
            ),
        );
        let mut lbr: Vec<TypeTag> = Vec::new();
        lbr.push(core_type("LBR", "T", Vec::new()));
        effects.push(
            Effect::PublishesResource(
                new_addr.clone(),
                resource(core_type("LibraAccount", "Balance", lbr)),
            ),
        );
    } else {
        if ty_args.len() > 0 {
            let mut chosen: Vec<TypeTag> = Vec::new();
            chosen.push(ty_args[0].clone_tag());
            effects.push(
                Effect::PublishesResource(
                    new_addr,
                    resource(core_type("LibraAccount", "Balance", chosen)),
                ),
            );
        }
    }
    effects
}

/// The template that adds a currency to an existing account.
pub struct AddCurrency;

impl Transaction for AddCurrency {
    fn name(&self) -> String {
        "add_currency".to_owned()
    }

    fn abstract_(&self) -> (r: AbstractTransaction)
        ensures
            r.transaction == StdlibScript::AddCurrencyToAccount,
            r.effects == EffectGen::AddCurrencyEffects,
            r.args@.len() == 0,
            r.ty_args@.len() == 1,
            r.ty_args@[0] == (AbstractMetadata::IsCurrency, TyConstraint::SenderLacksBalanceIn),
            r.sender_preconditions.argument_type is Address,
            r.sender_preconditions.preconditions@.len() == 1,
            r.sender_preconditions.preconditions@[0] is HasResource,
    {
        let mut ty_args: Vec<(AbstractMetadata, TyConstraint)> = Vec::new();
        ty_args.push((AbstractMetadata::IsCurrency, TyConstraint::SenderLacksBalanceIn));
        AbstractTransaction {
            sender_preconditions: sender_with(Vec::new()),
            ty_args,
            args: Vec::new(),
            transaction: StdlibScript::AddCurrencyToAccount,
            effects: EffectGen::AddCurrencyEffects,
        }
    }

    fn instantiate(&self, chain_state: &mut AbstractChainState, rng: &mut rand::rngs::StdRng)
        -> (r: Option<InstantiatedTransaction>)
        ensures
            r matches Some(txn) ==> txn.transaction == StdlibScript::AddCurrencyToAccount
                && txn.ty_args@.len() == 1 && txn.args@.len() == 0 && txn.effects@.len() == 1,
    {
        let atxn = self.abstract_();
        let tys = match get_tys_and_constraints(&atxn.ty_args, chain_state, rng) {
            Some(x) => x,
            None => {
                return None;
            },
        };
        let (ty_args, constraints) = tys;
        let sender_arg = atxn.sender_preconditions.add_constraints(constraints);
        let sender = match sender_arg.inhabit_address(chain_state, rng) {
            Some(a) => a,
            None => {
                return None;
            },
        };
        let mut effects: Vec<Effect> = Vec::new();
        if ty_args.len() > 0 {
            let mut chosen: Vec<TypeTag> = Vec::new();
            chosen.push(ty_args[0].clone_tag());
            effects.push(
                Effect::PublishesResource(
                    sender.clone(),
                    resource(core_type("LibraAccount", "Balance", chosen)),
                ),
            );
        }
        Some(
            InstantiatedTransaction {
                sender,
                ty_args,
                args: Vec::new(),
                transaction: atxn.transaction,
                effects,
            },
        )
    }
}

/// The template that creates a parent VASP account.
pub struct CreateParentVASPAccount;

impl Transaction for CreateParentVASPAccount {
    fn name(&self) -> String {
        "create_parent_vasp_account".to_owned()
    }

    fn abstract_(&self) -> (r: AbstractTransaction)
        ensures
            r.transaction == StdlibScript::CreateParentVaspAccount,
            r.effects == EffectGen::CreateParentVaspEffects,
            r.ty_args@.len() == 1,
            r.ty_args@[0] == (AbstractMetadata::IsCurrency, TyConstraint::Unconstrained),
            r.args@.len() == 6,
            r.args@[0].argument_type is Address && r.args@[0].preconditions@.len() == 1 && r.args@[
                0].preconditions@[0] is AccountDNE,
            r.args@[1].argument_type is U8Vector,
            r.args@[1].preconditions@.len() == 1 && r.args@[1].preconditions@[0] == (
            Constraint::RangeConstraint { lower: 32, upper: 33 }),
            r.args@[2].argument_type is U8Vector && r.args@[2].preconditions@.len() == 1
                && r.args@[2].preconditions@[0] == (
            Constraint::RangeConstraint { lower: 0, upper: 64 }),
            r.args@[3].argument_type is U8Vector && r.args@[3].preconditions@.len() == 1
                && r.args@[3].preconditions@[0] == (
            Constraint::RangeConstraint { lower: 0, upper: 64 }),
            r.args@[4].argument_type is U8Vector && r.args@[4].preconditions@.len() == 1
                && r.args@[4].preconditions@[0] == (
            Constraint::RangeConstraint { lower: 64, upper: 65 }),
            r.args@[5].argument_type is Bool,
            r.args@[5].preconditions@.len() == 0,
            r.sender_preconditions.argument_type is Address,
            r.sender_preconditions.preconditions@.len() == 2,
            r.sender_preconditions.preconditions@[0] is HasResource,
            r.sender_preconditions.preconditions@[1] matches Constraint::HasResource(res)
                && res.type_@ == crate::types::TypeTagV::Struct(
                crate::types::StructTagV {
                    address: Seq::new(crate::types::ADDRESS_LENGTH as nat, |i: int| 0u8),
                    module: "Association"@,
                    name: "PrivilegedCapability"@,
                    type_params: seq![
                        crate::types::TypeTagV::Struct(
                            crate::types::StructTagV {
                                address: Seq::new(
                                    crate::types::ADDRESS_LENGTH as nat,
                                    |i: int| 0u8,
                                ),
                                module: "Association"@,
                                name: "T"@,
                                type_params: Seq::empty(),
                            },
                        ),
                    ],
                },
            ),
    {
        proof {
            reveal_strlit("Association");
            reveal_strlit("PrivilegedCapability");
            reveal_strlit("T");
        }
        let inner = core_type("Association", "T", Vec::new());
        let ghost inner_v = inner@;
        let mut assoc_param: Vec<TypeTag> = Vec::new();
        assoc_param.push(inner);
        proof {
            crate::types::lemma_views_of_tags(assoc_param@);
            assert(crate::types::views_of_tags(assoc_param@) =~= seq![inner_v]);
            assert(crate::types::views_of_tags(Seq::<TypeTag>::empty()) =~= Seq::<
                crate::types::TypeTagV,
            >::empty());
        }
        let mut extra: Vec<Constraint> = Vec::new();
        extra.push(
            Constraint::HasResource(
                resource(core_type("Association", "PrivilegedCapability", assoc_param)),
            ),
        );
        let mut ty_args: Vec<(AbstractMetadata, TyConstraint)> = Vec::new();
        ty_args.push((AbstractMetadata::IsCurrency, TyConstraint::Unconstrained));
        let mut args: Vec<AbstractTransactionArgument> = Vec::new();
        let mut dne: Vec<Constraint> = Vec::new();
        dne.push(Constraint::AccountDNE);
        args.push(
            AbstractTransactionArgument {
                preconditions: dne,
                argument_type: TransactionArgumentType::Address,
            },
        );
        args.push(range_arg(32, 33, TransactionArgumentType::U8Vector));
        args.push(range_arg(0, 64, TransactionArgumentType::U8Vector));
        args.push(range_arg(0, 64, TransactionArgumentType::U8Vector));
        args.push(range_arg(64, 65, TransactionArgumentType::U8Vector));
        args.push(
            AbstractTransactionArgument {
                preconditions: Vec::new(),
                argument_type: TransactionArgumentType::Bool,
            },
        );
        AbstractTransaction {
            sender_preconditions: sender_with(extra),
            ty_args,
            args,
            transaction: StdlibScript::CreateParentVaspAccount,
            effects: EffectGen::CreateParentVaspEffects,
        }
    }

    fn instantiate(&self, chain_state: &mut AbstractChainState, rng: &mut rand::rngs::StdRng)
        -> Option<InstantiatedTransaction> {
        let atxn = self.abstract_();
        let mut args = match inhabit_args(&atxn.args, chain_state, rng) {
            Some(a) => a,
            None => {
                return None;
            },
        };
        let tys = match get_tys_and_constraints(&atxn.ty_args, chain_state, rng) {
            Some(x) => x,
            None => {
                return None;
            },
        };
        let (ty_args, constraints) = tys;
        let sender_arg = atxn.sender_preconditions.add_constraints(constraints);
        let sender = match sender_arg.inhabit_address(chain_state, rng) {
            Some(a) => a,
            None => {
                return None;
            },
        };
        let account = chain_state.add_account(rng);
        let publish_all = if args.len() > 5 {
            match &args[5] {
                TransactionArgument::Bool(b) => *b,
                _ => false,
            }
        } else {
            false
        };
        if args.len() > 1 {
            args.set(0, TransactionArgument::Address(account.addr.clone()));
            args.set(
                1,
                TransactionArgument::U8Vector(crate::types::clone_bytes(&account.pubkey)),
            );
        }
        let effects = creation_effects(account, "VASP", "ParentVASP", publish_all, &ty_args);
        Some(
            InstantiatedTransaction {
                sender,
                ty_args,
                args,
                transaction: atxn.transaction,
                effects,
            },
        )
    }
}

/// The template that creates a child VASP account under a parent.
pub struct CreateChildVASPAccount;

impl Transaction for CreateChildVASPAccount {
    fn name(&self) -> String {
        "create_child_vasp_account".to_owned()
    }

    fn abstract_(&self) -> (r: AbstractTransaction)
        ensures
            r.transaction == StdlibScript::CreateChildVaspAccount,
            r.effects == EffectGen::CreateChildVaspEffects,
            r.ty_args@.len() == 1,
            r.ty_args@[0] == (AbstractMetadata::IsCurrency, TyConstraint::SenderHoldsBalanceIn),
            r.args@.len() == 4,
            r.args@[0].argument_type is Address && r.args@[0].preconditions@.len() == 1 && r.args@[
                0].preconditions@[0] is AccountDNE,
            r.args@[1].argument_type is U8Vector,
            r.args@[1].preconditions@.len() == 1 && r.args@[1].preconditions@[0] == (
            Constraint::RangeConstraint { lower: 32, upper: 33 }),
            r.args@[2].argument_type is Bool,
            r.args@[2].preconditions@.len() == 0,
            r.args@[3].argument_type is U64,
            r.args@[3].preconditions@.len() == 0,
            r.sender_preconditions.argument_type is Address,
            r.sender_preconditions.preconditions@.len() == 2,
            r.sender_preconditions.preconditions@[0] is HasResource,
            r.sender_preconditions.preconditions@[1] matches Constraint::HasResource(res)
                && res.type_@ == crate::types::TypeTagV::Struct(
                crate::types::StructTagV {
                    address: Seq::new(crate::types::ADDRESS_LENGTH as nat, |i: int| 0u8),
                    module: "LibraAccount"@,
                    name: "Role"@,
                    type_params: seq![
                        crate::types::TypeTagV::Struct(
                            crate::types::StructTagV {
                                address: Seq::new(
                                    crate::types::ADDRESS_LENGTH as nat,
                                    |i: int| 0u8,
                                ),
                                module: "VASP"@,
                                name: "ParentVASP"@,
                                type_params: Seq::empty(),
                            },
                        ),
                    ],
                },
            ),
    {
        proof {
            reveal_strlit("LibraAccount");
            reveal_strlit("Role");
            reveal_strlit("VASP");
            reveal_strlit("ParentVASP");
        }
        let inner = core_type("VASP", "ParentVASP", Vec::new());
        let ghost inner_v = inner@;
        let mut role_param: Vec<TypeTag> = Vec::new();
        role_param.push(inner);
        proof {
            crate::types::lemma_views_of_tags(role_param@);
            assert(crate::types::views_of_tags(role_param@) =~= seq![inner_v]);
            assert(crate::types::views_of_tags(Seq::<TypeTag>::empty()) =~= Seq::<
                crate::types::TypeTagV,
            >::empty());
        }
        let mut extra: Vec<Constraint> = Vec::new();
        extra.push(Constraint::HasResource(resource(core_type("LibraAccount", "Role", role_param))));
        let mut ty_args: Vec<(AbstractMetadata, TyConstraint)> = Vec::new();
        ty_args.push((AbstractMetadata::IsCurrency, TyConstraint::SenderHoldsBalanceIn));
        let mut args: Vec<AbstractTransactionArgument> = Vec::new();
        let mut dne: Vec<Constraint> = Vec::new();
        dne.push(Constraint::AccountDNE);
        args.push(
            AbstractTransactionArgument {
                preconditions: dne,
                argument_type: TransactionArgumentType::Address,
            },
        );
        args.push(range_arg(32, 33, TransactionArgumentType::U8Vector));
        args.push(
            AbstractTransactionArgument {
                preconditions: Vec::new(),
                argument_type: TransactionArgumentType::Bool,
            },
        );
        args.push(
            AbstractTransactionArgument {
                preconditions: Vec::new(),
                argument_type: TransactionArgumentType::U64,
            },
        );
        AbstractTransaction {
            sender_preconditions: sender_with(extra),
            ty_args,
            args,
            transaction: StdlibScript::CreateChildVaspAccount,
            effects: EffectGen::CreateChildVaspEffects,
        }
    }

    fn instantiate(&self, chain_state: &mut AbstractChainState, rng: &mut rand::rngs::StdRng)
        -> Option<InstantiatedTransaction> {
        let atxn = self.abstract_();
        let mut args = match inhabit_args(&atxn.args, chain_state, rng) {
            Some(a) => a,
            None => {
                return None;
            },
        };
        let tys = match get_tys_and_constraints(&atxn.ty_args, chain_state, rng) {
            Some(x) => x,
            None => {
                return None;
            },
        };
        let (ty_args, constraints) = tys;
        let sender_arg = atxn.sender_preconditions.add_constraints(constraints);
        let sender = match sender_arg.inhabit_address(chain_state, rng) {
            Some(a) => a,
            None => {
                return None;
            },
        };
        let account = chain_state.add_account(rng);
        let publish_all = if args.len() > 2 {
            match &args[2] {
                TransactionArgument::Bool(b) => *b,
                _ => false,
            }
        } else {
            false
        };
        if args.len() > 1 {
            args.set(0, TransactionArgument::Address(account.addr.clone()));
            args.set(
                1,
                TransactionArgument::U8Vector(crate::types::clone_bytes(&account.pubkey)),
            );
        }
        let effects = creation_effects(account, "VASP", "ChildVASP", publish_all, &ty_args);
        Some(
            InstantiatedTransaction {
                sender,
                ty_args,
                args,
                transaction: atxn.transaction,
                effects,
            },
        )
    }
}

/// The template that rotates an account's authentication key.
pub struct RotateAuthenticationKey;

impl Transaction for RotateAuthenticationKey {
    fn name(&self) -> String {
        "rotate_authentication_key".to_owned()
    }

    fn abstract_(&self) -> (r: AbstractTransaction)
        ensures
            r.transaction == StdlibScript::RotateAuthenticationKey,
            r.effects == EffectGen::RotateKeyEffects,
            r.ty_args@.len() == 0,
            r.args@.len() == 1,
            r.args@[0].argument_type is U8Vector,
            r.args@[0].preconditions@.len() == 1,
            r.args@[0].preconditions@[0] == (Constraint::RangeConstraint { lower: 32, upper: 33 }),
            r.sender_preconditions.argument_type is Address,
            r.sender_preconditions.preconditions@.len() == 1,
            r.sender_preconditions.preconditions@[0] is HasResource,
    {
        let mut args: Vec<AbstractTransactionArgument> = Vec::new();
        args.push(range_arg(32, 33, TransactionArgumentType::U8Vector));
        AbstractTransaction {
            sender_preconditions: sender_with(Vec::new()),
            ty_args: Vec::new(),
            args,
            transaction: StdlibScript::RotateAuthenticationKey,
            effects: EffectGen::RotateKeyEffects,
        }
    }

    fn instantiate(&self, chain_state: &mut AbstractChainState, rng: &mut rand::rngs::StdRng)
        -> Option<InstantiatedTransaction> {
        let atxn = self.abstract_();
        let sender = match atxn.sender_preconditions.inhabit_address(chain_state, rng) {
            Some(a) => a,
            None => {
                return None;
            },
        };
        let mut priv_key: Vec<u8> = Vec::new();
        let mut pub_key: Vec<u8> = Vec::new();
        let mut i: usize = 0;
        while i < 32
            invariant
                i <= 32,
                pub_key@.len() == i,
            decreases 32 - i,
        {
            priv_key.push(crate::fuzzer_rng::random_u8(rng));
            pub_key.push(crate::fuzzer_rng::random_u8(rng));
            i += 1;
        }
        let mut args: Vec<TransactionArgument> = Vec::new();
        args.push(TransactionArgument::U8Vector(crate::types::clone_bytes(&pub_key)));
        let mut effects: Vec<Effect> = Vec::new();
        effects.push(Effect::RotatesKey(sender.clone(), (priv_key, pub_key)));
        Some(
            InstantiatedTransaction {
                sender,
                ty_args: Vec::new(),
                args,
                transaction: atxn.transaction,
                effects,
            },
        )
    }
}

/// An argument bounded by a half-open numeric range.
fn range_arg(lower: u128, upper: u128, argument_type: TransactionArgumentType) -> (r:
    AbstractTransactionArgument)
    ensures
        r.argument_type == argument_type,
        r.preconditions@.len() == 1,
        r.preconditions@[0] == (Constraint::RangeConstraint { lower, upper }),
{
    let mut preconditions: Vec<Constraint> = Vec::new();
    preconditions.push(Constraint::RangeConstraint { lower, upper });
    AbstractTransactionArgument { preconditions, argument_type }
}

/// Inhabit every positional argument, or nothing when one cannot be met.
fn inhabit_args(
    args: &Vec<AbstractTransactionArgument>,
    chain_state: &AbstractChainState,
    rng: &mut rand::rngs::StdRng,
) -> (r: Option<Vec<TransactionArgument>>)
    ensures
        r matches Some(out) ==> out@.len() == args@.len(),
{
    let mut out: Vec<TransactionArgument> = Vec::new();
    let mut i: usize = 0;
    while i < args.len()
        invariant
            i <= args@.len(),
            out@.len() == i,
        decreases args@.len() - i,
    {
        match args[i].inhabit(chain_state, rng) {
            Some(a) => {
                out.push(a);
            },
            None => {
                return None;
            },
        }
        i += 1;
    }
    Some(out)
}

/// Choose a type actual for each metadata slot and gather the constraints
/// the choices place on the sender. Nothing when some metadata has no
/// registered type.
pub fn get_tys_and_constraints(
    tys: &Vec<(AbstractMetadata, TyConstraint)>,
    chain_state: &AbstractChainState,
    rng: &mut rand::rngs::StdRng,
) -> (r: Option<(Vec<TypeTag>, Vec<Constraint>)>)
    ensures
        r matches Some(x) ==> x.0@.len() == tys@.len(),
{
    let mut ty_tags: Vec<TypeTag> = Vec::new();
    let mut constraints: Vec<Constraint> = Vec::new();
    let mut i: usize = 0;
    while i < tys.len()
        invariant
            i <= tys@.len(),
            ty_tags@.len() == i,
        decreases tys@.len() - i,
    {
        let (meta, tc) = &tys[i];
        let typ = match chain_state.type_registry.get_ty_from_meta(meta, rng) {
            Some(t) => t,
            None => {
                return None;
            },
        };
        let mut extra = ty_constraints(tc, &typ);
        ty_tags.push(typ.type_);
        constraints.append(&mut extra);
        i += 1;
    }
    Some((ty_tags, constraints))
}

impl AbstractTransactionArgument {
    /// Inhabit this argument and take it as an address. Nothing when the
    /// constraints cannot be met or the argument is not an address.
    pub fn inhabit_address(
        &self,
        chain_state: &AbstractChainState,
        rng: &mut rand::rngs::StdRng,
    ) -> (r: Option<AccountAddress>) {
        match self.inhabit(chain_state, rng) {
            Some(TransactionArgument::Address(a)) => Some(a),
            _ => None,
        }
    }
}

/// A registry of templates, by name.
pub struct TransactionRegistry {
    pub transactions: Vec<(String, TransactionKind)>,
}

/// The templates the registry can hold.
#[derive(Debug, Clone, Copy, PartialEq, Eq, Structural)]
pub enum TransactionKind {
    AddCurrency,
    CreateParentVASPAccount,
    CreateChildVASPAccount,
    RotateAuthenticationKey,
}

/// Instantiate a template of the registry by kind.
pub fn instantiate_kind(
    kind: &TransactionKind,
    chain_state: &mut AbstractChainState,
    rng: &mut rand::rngs::StdRng,
) -> (r: Option<InstantiatedTransaction>) {
    match kind {
        TransactionKind::AddCurrency => AddCurrency.instantiate(chain_state, rng),
        TransactionKind::CreateParentVASPAccount => CreateParentVASPAccount.instantiate(
            chain_state,
            rng,
        ),
        TransactionKind::CreateChildVASPAccount => CreateChildVASPAccount.instantiate(
            chain_state,
            rng,
        ),
        TransactionKind::RotateAuthenticationKey => RotateAuthenticationKey.instantiate(
            chain_state,
            rng,
        ),
    }
}

impl TransactionRegistry {
    /// An empty registry.
    pub fn new() -> (r: TransactionRegistry)
        ensures
            r.transactions@.len() == 0,
    {
        TransactionRegistry { transactions: Vec::new() }
    }

    /// Add templates under their names.
    pub fn add_transactions(&mut self, txns: Vec<(String, TransactionKind)>) -> (r: ())
        ensures
            final(self).transactions@.len() == old(self).transactions@.len() + txns@.len(),
    {
        let mut txns = txns;
        let ghost n = txns@.len();
        let mut rev: Vec<(String, TransactionKind)> = Vec::new();
        while txns.len() > 0
            invariant
                rev@.len() + txns@.len() == n,
            decreases txns@.len(),
        {
            match txns.pop() {
                Some(t) => {
                    rev.push(t);
                },
                None => {
                    proof {
                        assert(false);
                    }
                },
            }
        }
        while rev.len() > 0
            invariant
                self.transactions@.len() == old(self).transactions@.len() + n - rev@.len(),
            decreases rev@.len(),
        {
            match rev.pop() {
                Some(t) => {
                    self.transactions.push(t);
                },
                None => {
                    proof {
                        assert(false);
                    }
                },
            }
        }
    }
}

/// The registry of the four standard templates.
pub fn txns() -> (r: TransactionRegistry)
    ensures
        r.transactions@.len() == 4,
{
    let mut registry = TransactionRegistry::new();
    let mut entries: Vec<(String, TransactionKind)> = Vec::new();
    entries.push(("add_currency".to_owned(), TransactionKind::AddCurrency));
    entries.push(
        ("create_parent_vasp_account".to_owned(), TransactionKind::CreateParentVASPAccount),
    );
    entries.push(
        ("create_child_vasp_account".to_owned(), TransactionKind::CreateChildVASPAccount),
    );
    entries.push(
        ("rotate_authentication_key".to_owned(), TransactionKind::RotateAuthenticationKey),
    );
    registry.add_transactions(entries);
    registry
}

} // verus!
