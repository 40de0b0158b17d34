//! The abstract transaction generator: constraints, inhabitation,
//! effects, and block generation.

use move_vm::abstract_state::AbstractAccount;
use move_vm::abstract_state::AbstractMetadata;
use move_vm::abstract_state::AbstractResource;
use move_vm::abstract_state::Account;
use move_vm::abstract_state::Constraint;
use move_vm::abstract_state::Effect;
use move_vm::abstract_state::resource;
use move_vm::chain_state::AbstractChainState;
use move_vm::chain_state::ChainStateError;
use move_vm::chain_state::balance_resource_of;
use move_vm::execution::Generator;
use move_vm::fuzzer_rng::new_rng;
use move_vm::transaction::AbstractTransactionArgument;
use move_vm::transaction::TransactionArgumentType;
use move_vm::transactions::AddCurrency;
use move_vm::transactions::Transaction;
use move_vm::transactions::core_type;
use move_vm::transactions::txns;
use move_vm::transactions::type_registry;
use move_vm::txn_executor::TransactionArgument;

fn account_resource() -> AbstractResource {
    resource(core_type("LibraAccount", "T", vec![]))
}

#[test]
fn range_constraints_intersect() {
    let a = Constraint::RangeConstraint { lower: 10, upper: 60 };
    let b = Constraint::RangeConstraint { lower: 20, upper: 80 };
    let merged = b.constrain_bounds(a.constrain_bounds(None));
    assert_eq!(merged, Some((20, 60)));
}

#[test]
fn singleton_range_inhabits_exactly() {
    // The half-open range holding only one value always draws it.
    let arg = AbstractTransactionArgument {
        preconditions: vec![Constraint::RangeConstraint { lower: 32, upper: 33 }],
        argument_type: TransactionArgumentType::U64,
    };
    let state = AbstractChainState::new(type_registry());
    let mut rng = new_rng(7);
    match arg.inhabit(&state, &mut rng).unwrap() {
        TransactionArgument::U64(x) => assert_eq!(x, 32),
        other => panic!("expected an integer argument, got {:?}", other),
    }
}

#[test]
fn empty_range_cannot_inhabit() {
    let arg = AbstractTransactionArgument {
        preconditions: vec![Constraint::RangeConstraint { lower: 33, upper: 33 }],
        argument_type: TransactionArgumentType::U64,
    };
    let state = AbstractChainState::new(type_registry());
    let mut rng = new_rng(7);
    assert!(arg.inhabit(&state, &mut rng).is_none());
}

#[test]
fn address_inhabitation_filters_by_resources() {
    let mut state = AbstractChainState::new(type_registry());
    let mut rng = new_rng(3);
    // No account holds the account resource yet, so no sender fits.
    let arg = AbstractTransactionArgument {
        preconditions: vec![Constraint::HasResource(account_resource())],
        argument_type: TransactionArgumentType::Address,
    };
    assert!(arg.inhabit(&state, &mut rng).is_none());

    // Give the association the account resource: it becomes the only
    // candidate.
    let assoc = move_vm::account_config::association_address();
    let idx = state.find_account(&assoc).unwrap();
    state.accounts[idx].1.add_resource(account_resource());
    let arg = AbstractTransactionArgument {
        preconditions: vec![Constraint::HasResource(account_resource())],
        argument_type: TransactionArgumentType::Address,
    };
    match arg.inhabit(&state, &mut rng).unwrap() {
        TransactionArgument::Address(a) => assert!(a.equals(&assoc)),
        other => panic!("expected an address argument, got {:?}", other),
    }
}

#[test]
fn effects_apply_to_the_chain_state() {
    let mut state = AbstractChainState::new(type_registry());
    let mut rng = new_rng(5);
    let fresh = Account::new(&mut rng);
    let addr = fresh.addr.clone();
    state.apply_effect(Effect::CreatesAccount(fresh)).unwrap();
    state.apply_effect(Effect::PublishesResource(addr.clone(), account_resource())).unwrap();
    let err = state
        .apply_effect(Effect::PublishesResource(addr.clone(), account_resource()))
        .unwrap_err();
    assert_eq!(err, ChainStateError::ResourceAlreadyPublished);
    state.apply_effect(Effect::RemovesResource(addr.clone(), account_resource())).unwrap();
    state.apply_effect(Effect::PublishesResource(addr.clone(), account_resource())).unwrap();

    let missing = Account::new(&mut rng).addr;
    let err = state
        .apply_effect(Effect::PublishesResource(missing, account_resource()))
        .unwrap_err();
    assert_eq!(err, ChainStateError::MissingAccount);
}

#[test]
fn rotate_key_replaces_the_key_material() {
    let mut state = AbstractChainState::new(type_registry());
    let mut rng = new_rng(5);
    let fresh = Account::new(&mut rng);
    let addr = fresh.addr.clone();
    state.apply_effect(Effect::CreatesAccount(fresh)).unwrap();
    state
        .apply_effect(Effect::RotatesKey(addr.clone(), (vec![1, 2], vec![3, 4])))
        .unwrap();
    let idx = state.find_account(&addr).unwrap();
    assert_eq!(state.accounts[idx].1.account.privkey, vec![1, 2]);
    assert_eq!(state.accounts[idx].1.account.pubkey, vec![3, 4]);
}

#[test]
fn add_currency_instantiates_against_a_ready_sender() {
    let mut state = AbstractChainState::new(type_registry());
    let mut rng = new_rng(11);
    // Prepare a sender holding the account resource but no balances:
    // every currency is then addable.
    let assoc = move_vm::account_config::association_address();
    let idx = state.find_account(&assoc).unwrap();
    state.accounts[idx].1.add_resource(account_resource());
    let txn = AddCurrency.instantiate(&mut state, &mut rng).unwrap();
    assert!(txn.sender.equals(&assoc));
    assert_eq!(txn.ty_args.len(), 1);
    assert_eq!(txn.effects.len(), 1);
    match &txn.effects[0] {
        Effect::PublishesResource(addr, res) => {
            assert!(addr.equals(&assoc));
            let expected = balance_resource_of(&txn.ty_args[0]).unwrap();
            assert!(res.type_.equals(&expected.type_));
        }
        other => panic!("expected a publication effect, got {:?}", other),
    }
}

#[test]
fn generated_blocks_stay_within_their_size() {
    let mut state = AbstractChainState::new(type_registry());
    let mut rng = new_rng(23);
    // A sender able to pay gas: the account resource plus one balance.
    let assoc = move_vm::account_config::association_address();
    let idx = state.find_account(&assoc).unwrap();
    state.accounts[idx].1.add_resource(account_resource());
    let lbr = core_type("LBR", "T", vec![]);
    state.accounts[idx].1.add_resource(balance_resource_of(&lbr).unwrap());

    let generator = Generator::new(txns(), 5);
    let seq_before = state.accounts[idx].1.sequence_number;
    let block = generator.generate_block_and_apply(&mut state, &mut rng);
    assert!(block.len() <= 5);
    // Each signed transaction advanced its sender's local sequence number.
    let idx = state.find_account(&assoc).unwrap();
    let advanced = state.accounts[idx].1.sequence_number - seq_before;
    let from_assoc = block.iter().filter(|(_, t)| t.sender.equals(&assoc)).count() as u64;
    assert_eq!(advanced, from_assoc);
}

#[test]
fn block_generation_is_deterministic_in_the_seed() {
    let build = || {
        let mut state = AbstractChainState::new(type_registry());
        let assoc = move_vm::account_config::association_address();
        let idx = state.find_account(&assoc).unwrap();
        state.accounts[idx].1.add_resource(account_resource());
        let lbr = core_type("LBR", "T", vec![]);
        state.accounts[idx].1.add_resource(balance_resource_of(&lbr).unwrap());
        let mut rng = new_rng(77);
        let generator = Generator::new(txns(), 4);
        generator.generate_block_and_apply(&mut state, &mut rng)
    };
    let first = build();
    let second = build();
    assert_eq!(first, second);
}

#[test]
fn metadata_lookup_finds_currencies() {
    let registry = type_registry();
    let mut rng = new_rng(1);
    let ty = registry.get_ty_from_meta(&AbstractMetadata::IsCurrency, &mut rng).unwrap();
    assert!(ty.has_meta(&AbstractMetadata::IsCurrency));
    assert!(registry
        .get_ty_from_meta(&AbstractMetadata::IsPrivilege, &mut rng)
        .is_none());
}

#[test]
fn accounts_hold_each_resource_once() {
    let mut rng = new_rng(2);
    let mut account = AbstractAccount::new(&mut rng);
    assert!(!account.has_resource(&account_resource().type_));
    account.add_resource(account_resource());
    assert!(account.has_resource(&account_resource().type_));
    assert!(account.remove_resource(&account_resource().type_));
    assert!(!account.has_resource(&account_resource().type_));
    assert!(!account.remove_resource(&account_resource().type_));
}
