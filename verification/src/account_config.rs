//! Well-known addresses, module names and struct tags of the account
//! configuration: the chain's core code address, the system accounts, and
//! the account-type tags the transaction generator draws from.

use vstd::prelude::*;

use crate::types::AccountAddress;
use crate::types::Identifier;
use crate::types::ModuleId;
use crate::types::StructTag;
use crate::types::TypeTag;
use crate::types::views_of_tags;

verus! {

/// The address all core code is published under.
pub fn core_code_address() -> (r: AccountAddress)
    ensures
        r.well_formed(),
        r@ == Seq::new(crate::types::ADDRESS_LENGTH as nat, |i: int| 0u8),
{
    AccountAddress::from_fill_byte(0)
}

/// The association's account address.
pub fn association_address() -> (r: AccountAddress)
    ensures
        r.well_formed(),
        r@ == Seq::new(crate::types::ADDRESS_LENGTH as nat, |i: int| 0xa5u8),
{
    AccountAddress::from_fill_byte(0xa5)
}

/// The account transaction fees accrue under.
pub fn transaction_fee_address() -> (r: AccountAddress)
    ensures
        r.well_formed(),
        r@ == Seq::new(crate::types::ADDRESS_LENGTH as nat, |i: int| 0xfeu8),
{
    AccountAddress::from_fill_byte(0xfe)
}

/// The account on-chain configuration lives under.
pub fn config_address() -> (r: AccountAddress)
    ensures
        r.well_formed(),
        r@ == Seq::new(crate::types::ADDRESS_LENGTH as nat, |i: int| 0xf1u8),
{
    AccountAddress::from_fill_byte(0xf1)
}

/// The treasury compliance account address.
pub fn treasury_compliance_account_address() -> (r: AccountAddress)
    ensures
        r.well_formed(),
        r@ == Seq::new(crate::types::ADDRESS_LENGTH as nat, |i: int| 0xb1u8),
{
    AccountAddress::from_fill_byte(0xb1)
}

/// The name of the account-type module.
pub fn account_type_module_name() -> (r: Identifier)
    ensures
        r@ == "AccountType"@,
{
    Identifier::new("AccountType".to_owned())
}

/// The name of the account-type struct.
pub fn account_type_struct_name() -> (r: Identifier)
    ensures
        r@ == "T"@,
{
    Identifier::new("T".to_owned())
}

/// The name of the VASP account-type module.
pub fn vasp_type_module_name() -> (r: Identifier)
    ensures
        r@ == "VASP"@,
{
    Identifier::new("VASP".to_owned())
}

/// The name of the root VASP struct.
pub fn root_vasp_type_struct_name() -> (r: Identifier)
    ensures
        r@ == "RootVASP"@,
{
    Identifier::new("RootVASP".to_owned())
}

/// The name of the empty account-type module.
pub fn empty_account_type_module_name() -> (r: Identifier)
    ensures
        r@ == "Empty"@,
{
    Identifier::new("Empty".to_owned())
}

/// The name of the empty account-type struct.
pub fn empty_account_type_struct_name() -> (r: Identifier)
    ensures
        r@ == "T"@,
{
    Identifier::new("T".to_owned())
}

/// The tag of the account-type resource: `AccountType::T` instantiated at
/// either the empty account type or the root VASP type.
pub fn account_type_struct_tag(is_empty_account_type: bool) -> (r: StructTag)
    ensures
        r@.address == Seq::new(crate::types::ADDRESS_LENGTH as nat, |i: int| 0u8),
        r@.module == "AccountType"@,
        r@.name == "T"@,
        r@.type_params.len() == 1,
        is_empty_account_type ==> r@.type_params[0] == (crate::types::TypeTagV::Struct(
            crate::types::StructTagV {
                address: Seq::new(crate::types::ADDRESS_LENGTH as nat, |i: int| 0u8),
                module: "Empty"@,
                name: "T"@,
                type_params: Seq::empty(),
            },
        )),
        !is_empty_account_type ==> r@.type_params[0] == (crate::types::TypeTagV::Struct(
            crate::types::StructTagV {
                address: Seq::new(crate::types::ADDRESS_LENGTH as nat, |i: int| 0u8),
                module: "VASP"@,
                name: "RootVASP"@,
                type_params: Seq::empty(),
            },
        )),
{
    let inner_struct_tag = if is_empty_account_type {
        StructTag {
            address: core_code_address(),
            module: empty_account_type_module_name(),
            type_params: Vec::new(),
            name: empty_account_type_struct_name(),
        }
    } else {
        StructTag {
            address: core_code_address(),
            module: vasp_type_module_name(),
            type_params: Vec::new(),
            name: root_vasp_type_struct_name(),
        }
    };
    proof {
        crate::types::lemma_views_of_tags(inner_struct_tag.type_params@);
        assert(views_of_tags(inner_struct_tag.type_params@) =~= Seq::<
            crate::types::TypeTagV,
        >::empty());
    }
    let mut type_params: Vec<TypeTag> = Vec::new();
    type_params.push(TypeTag::Struct(inner_struct_tag));
    let r = StructTag {
        address: core_code_address(),
        module: account_type_module_name(),
        type_params,
        name: account_type_struct_name(),
    };
    proof {
        crate::types::lemma_views_of_tags(r.type_params@);
    }
    r
}

/// The identity of the account module.
/// The identity of the account module.
pub open spec fn spec_account_module_id() -> crate::types::ModuleIdV {
    crate::types::ModuleIdV {
        address: Seq::new(crate::types::ADDRESS_LENGTH as nat, |i: int| 0u8),
        name: "LibraAccount"@,
    }
}

pub fn account_module_id() -> (r: ModuleId)
    ensures
        r@.address == Seq::new(crate::types::ADDRESS_LENGTH as nat, |i: int| 0u8),
        r@.name == "LibraAccount"@,
        r@ == spec_account_module_id(),
{
    proof {
        reveal_strlit("LibraAccount");
    }
    ModuleId::new(core_code_address(), Identifier::new("LibraAccount".to_owned()))
}

/// The identity of the event module.
pub fn event_module_id() -> (r: ModuleId)
    ensures
        r@.address == Seq::new(crate::types::ADDRESS_LENGTH as nat, |i: int| 0u8),
        r@.name == "Event"@,
{
    ModuleId::new(core_code_address(), Identifier::new("Event".to_owned()))
}

/// The name of the account-creation function of the account module.
pub fn create_account_name() -> (r: Identifier)
    ensures
        r@ == "make"@,
{
    Identifier::new("make".to_owned())
}

/// The name of the account struct of the account module.
pub fn account_struct_name() -> (r: Identifier)
    ensures
        r@ == "T"@,
{
    Identifier::new("T".to_owned())
}

/// The name of the event-store native function.
pub fn emit_event_name() -> (r: Identifier)
    ensures
        r@ == "write_to_event_store"@,
{
    Identifier::new("write_to_event_store".to_owned())
}

/// The name of the transaction prologue of the account module.
pub fn prologue_name() -> (r: Identifier)
    ensures
        r@ == "prologue"@,
{
    Identifier::new("prologue".to_owned())
}

/// The name of the transaction epilogue of the account module.
pub fn epilogue_name() -> (r: Identifier)
    ensures
        r@ == "epilogue"@,
{
    Identifier::new("epilogue".to_owned())
}

} // verus!
