//! Loaded modules and the module cache the interpreter resolves code
//! through. The cache is responsible for loading and verifying modules;
//! the interpreter consumes it through a narrow contract, and resolution
//! failures surface as linker errors.

use vstd::prelude::*;

use crate::bytecode::Bytecode;
use crate::bytecode::FunctionHandleIndex;
use crate::bytecode::SignatureToken;
use crate::bytecode::StructDefinitionIndex;
use crate::canonical::StructDef;
use crate::canonical::TypeV;
use crate::canonical::Type;
use crate::status::StatusCode;
use crate::status::VMResult;
use crate::status::VMStatus;
use crate::types::AccountAddress;
use crate::types::Identifier;
use crate::types::ModuleId;
use crate::types::ModuleIdV;
use crate::values::VMString;

verus! {

/// A reference from a module to another module, by pool indices.
#[derive(Debug, Clone, Copy, PartialEq, Eq, Structural)]
pub struct ModuleHandle {
    pub address: u16,
    pub name: u16,
}

/// A reference to a struct declared in some module, by pool indices.
#[derive(Debug, Clone, Copy, PartialEq, Eq, Structural)]
pub struct StructHandle {
    pub module: u16,
    pub name: u16,
}

/// A reference to a function declared in some module, by pool indices.
#[derive(Debug, Clone, Copy, PartialEq, Eq, Structural)]
pub struct FunctionHandle {
    pub module: u16,
    pub name: u16,
}

/// A struct declared by a module: its handle and its field types.
#[derive(Debug, PartialEq, Eq)]
pub struct StructDefinition {
    pub struct_handle: u16,
    pub field_types: Vec<SignatureToken>,
}

/// A function declared by a module: its handle, its code, and its frame
/// shape. A native function carries no code.
#[derive(Debug, PartialEq, Eq)]
pub struct FunctionDefinition {
    pub handle: u16,
    pub is_native: bool,
    pub arg_count: usize,
    pub local_count: usize,
    pub code: Vec<Bytecode>,
}

/// A module loaded and verified by the module cache: its identity and the
/// pools its code indexes into.
#[derive(Debug, PartialEq, Eq)]
pub struct LoadedModule {
    pub id: ModuleId,
    pub identifiers: Vec<Identifier>,
    pub address_pool: Vec<AccountAddress>,
    pub byte_array_pool: Vec<Vec<u8>>,
    pub user_strings: Vec<VMString>,
    pub module_handles: Vec<ModuleHandle>,
    pub struct_handles: Vec<StructHandle>,
    pub function_handles: Vec<FunctionHandle>,
    pub struct_defs: Vec<StructDefinition>,
    pub function_defs: Vec<FunctionDefinition>,
    pub locals_signatures: Vec<Vec<SignatureToken>>,
    pub field_offsets: Vec<u16>,
}

/// The index of the first function definition whose name is `name`, going by
/// the identifier its handle points at.
pub open spec fn spec_find_function(m: LoadedModule, name: Seq<char>, from: int) -> Option<int>
    decreases m.function_defs@.len() - from,
{
    if from < 0 || from >= m.function_defs@.len() {
        None
    } else {
        let def = m.function_defs@[from];
        if def.handle < m.function_handles@.len() && {
            let h = m.function_handles@[def.handle as int];
            h.name < m.identifiers@.len() && m.identifiers@[h.name as int]@ == name
        } {
            Some(from)
        } else {
            spec_find_function(m, name, from + 1)
        }
    }
}

/// The index of the first struct definition whose name is `name`, going by
/// the identifier its handle points at.
pub open spec fn spec_find_struct(m: LoadedModule, name: Seq<char>, from: int) -> Option<int>
    decreases m.struct_defs@.len() - from,
{
    if from < 0 || from >= m.struct_defs@.len() {
        None
    } else {
        let def = m.struct_defs@[from];
        if def.struct_handle < m.struct_handles@.len() && {
            let h = m.struct_handles@[def.struct_handle as int];
            h.name < m.identifiers@.len() && m.identifiers@[h.name as int]@ == name
        } {
            Some(from)
        } else {
            spec_find_struct(m, name, from + 1)
        }
    }
}

impl LoadedModule {
    /// The index of the first function definition with the given name.
    pub fn find_function_def(&self, name: &Identifier) -> (r: Option<usize>)
        ensures
            match spec_find_function(*self, name@, 0) {
                Some(i) => r is Some && r->0 == i && i < self.function_defs@.len(),
                None => r is None,
            },
    {
        let mut i: usize = 0;
        while i < self.function_defs.len()
            invariant
                i <= self.function_defs@.len(),
                spec_find_function(*self, name@, 0) == spec_find_function(*self, name@, i as int),
            decreases self.function_defs@.len() - i,
        {
            let def = &self.function_defs[i];
            let hit = (def.handle as usize) < self.function_handles.len() && {
                let h = self.function_handles[def.handle as usize];
                (h.name as usize) < self.identifiers.len() && self.identifiers[h.name
                    as usize].equals(name)
            };
            if hit {
                return Some(i);
            }
            i += 1;
        }
        None
    }

    /// The index of the first struct definition with the given name.
    pub fn find_struct_def(&self, name: &Identifier) -> (r: Option<usize>)
        ensures
            match spec_find_struct(*self, name@, 0) {
                Some(i) => r is Some && r->0 == i && i < self.struct_defs@.len(),
                None => r is None,
            },
    {
        let mut i: usize = 0;
        while i < self.struct_defs.len()
            invariant
                i <= self.struct_defs@.len(),
                spec_find_struct(*self, name@, 0) == spec_find_struct(*self, name@, i as int),
            decreases self.struct_defs@.len() - i,
        {
            let def = &self.struct_defs[i];
            let hit = (def.struct_handle as usize) < self.struct_handles.len() && {
                let h = self.struct_handles[def.struct_handle as usize];
                (h.name as usize) < self.identifiers.len() && self.identifiers[h.name
                    as usize].equals(name)
            };
            if hit {
                return Some(i);
            }
            i += 1;
        }
        None
    }

    /// The identity of the module a module handle points at.
    pub fn module_id_of_handle(&self, idx: u16) -> (r: VMResult<ModuleId>)
        ensures
            r matches Ok(id) ==> idx < self.module_handles@.len() && {
                let h = self.module_handles@[idx as int];
                &&& h.address < self.address_pool@.len()
                &&& h.name < self.identifiers@.len()
                &&& id@.address == self.address_pool@[h.address as int]@
                &&& id@.name == self.identifiers@[h.name as int]@
            },
            r is Err ==> r->Err_0.major_status == StatusCode::LinkerError,
    {
        if (idx as usize) >= self.module_handles.len() {
            return Err(VMStatus::new(StatusCode::LinkerError));
        }
        let h = self.module_handles[idx as usize];
        if (h.address as usize) >= self.address_pool.len() || (h.name as usize)
            >= self.identifiers.len() {
            return Err(VMStatus::new(StatusCode::LinkerError));
        }
        Ok(ModuleId::new(
            self.address_pool[h.address as usize].clone(),
            self.identifiers[h.name as usize].clone(),
        ))
    }
}

/// A resolved reference to a function: the module that holds it, and the
/// index of its definition there.
#[derive(Clone, Copy)]
pub struct FunctionRef<'txn> {
    pub module: &'txn LoadedModule,
    pub idx: usize,
}

impl<'txn> FunctionRef<'txn> {
    /// The reference points at an actual definition.
    pub open spec fn valid(&self) -> bool {
        self.idx < self.module.function_defs@.len()
    }

    /// The definition the reference points at.
    pub open spec fn def(&self) -> FunctionDefinition {
        self.module.function_defs@[self.idx as int]
    }

    /// A reference to the function at `idx` in `module`.
    pub fn new(module: &'txn LoadedModule, idx: usize) -> (r: FunctionRef<'txn>)
        requires
            idx < module.function_defs@.len(),
        ensures
            r.module == module,
            r.idx == idx,
            r.valid(),
    {
        FunctionRef { module, idx }
    }

    /// The code stream of the function.
    pub fn code_definition(&self) -> (r: &'txn Vec<Bytecode>)
        requires
            self.valid(),
        ensures
            r@ == self.def().code@,
    {
        &self.module.function_defs[self.idx].code
    }

    /// How many locals a frame for this function holds.
    pub fn local_count(&self) -> (r: usize)
        requires
            self.valid(),
        ensures
            r == self.def().local_count,
    {
        self.module.function_defs[self.idx].local_count
    }

    /// How many arguments the function takes.
    pub fn arg_count(&self) -> (r: usize)
        requires
            self.valid(),
        ensures
            r == self.def().arg_count,
    {
        self.module.function_defs[self.idx].arg_count
    }

    /// Whether the function is native.
    pub fn is_native(&self) -> (r: bool)
        requires
            self.valid(),
        ensures
            r == self.def().is_native,
    {
        self.module.function_defs[self.idx].is_native
    }

    /// The module the function lives in.
    pub fn module(&self) -> (r: &'txn LoadedModule)
        ensures
            r == self.module,
    {
        self.module
    }
}

/// The loader contract the interpreter consumes: modules by identity,
/// function references by handle, and struct definitions resolved to
/// runtime types. What each operation returns is fixed by the cache's own
/// abstract resolution functions, so one cache answers every query the
/// same way for the whole transaction.
pub trait ModuleCache {
    /// The module the cache holds under an identity, if any.
    spec fn spec_get(&self, id: ModuleIdV) -> Option<LoadedModule>;

    /// What the cache resolves a function handle of a module to: the target
    /// module and the index of the definition in it.
    spec fn spec_function_ref(&self, module: LoadedModule, idx: int) -> Option<
        (LoadedModule, int),
    >;

    /// What the cache resolves a struct definition of a module to, as the
    /// mathematical value of the runtime type of its fields.
    spec fn spec_struct_def(&self, module: LoadedModule, idx: int) -> Option<Seq<TypeV>>;

    /// Look a module up by identity.
    fn get_loaded_module<'a>(&'a self, id: &ModuleId) -> (r: Option<&'a LoadedModule>)
        ensures
            match self.spec_get(id@) {
                Some(m) => r matches Some(mr) && *mr == m && m.id@ == id@,
                None => r is None,
            },
    ;

    /// Resolve a function handle of a module to a function reference.
    fn resolve_function_ref<'a>(&'a self, module: &LoadedModule, idx: FunctionHandleIndex) -> (r:
        Option<FunctionRef<'a>>)
        ensures
            match self.spec_function_ref(*module, idx as int) {
                Some(t) => r matches Some(f) && *f.module == t.0 && f.idx == t.1 && f.valid(),
                None => r is None,
            },
    ;

    /// Resolve a struct definition of a module to a runtime type.
    fn resolve_struct_def(&self, module: &LoadedModule, idx: StructDefinitionIndex) -> (r: Option<
        StructDef,
    >)
        ensures
            match self.spec_struct_def(*module, idx as int) {
                Some(d) => r matches Some(rd) && rd@ == d,
                None => r is None,
            },
    ;
}

} // verus!

verus! {

/// The resolution depth cap for struct definitions: recursion past this
/// depth fails, hardening the loader against malformed input.
pub const MAX_TYPE_RESOLUTION_DEPTH: u64 = 256;

/// The first module in `mods`, from `from` on, whose identity is `id`.
pub open spec fn spec_find_module(mods: Seq<LoadedModule>, id: ModuleIdV, from: int) -> Option<
    LoadedModule,
>
    decreases mods.len() - from,
{
    if from < 0 || from >= mods.len() {
        None
    } else if mods[from].id@ == id {
        Some(mods[from])
    } else {
        spec_find_module(mods, id, from + 1)
    }
}

/// The identity the module handle of a struct handle points at, together
/// with the struct's name, if all the indices are in range.
pub open spec fn spec_struct_handle_target(m: LoadedModule, sh_idx: int) -> Option<
    (ModuleIdV, Seq<char>),
> {
    if 0 <= sh_idx < m.struct_handles@.len() {
        let sh = m.struct_handles@[sh_idx];
        if sh.module < m.module_handles@.len() && sh.name < m.identifiers@.len() {
            let mh = m.module_handles@[sh.module as int];
            if mh.address < m.address_pool@.len() && mh.name < m.identifiers@.len() {
                Some(
                    (
                        ModuleIdV {
                            address: m.address_pool@[mh.address as int]@,
                            name: m.identifiers@[mh.name as int]@,
                        },
                        m.identifiers@[sh.name as int]@,
                    ),
                )
            } else {
                None
            }
        } else {
            None
        }
    } else {
        None
    }
}

/// What a signature token resolves to: ground types directly; a struct
/// token through its handle, the module cache, and the target's own field
/// types, spending one unit of fuel; references and type parameters do not
/// name a storable type.
pub open spec fn spec_resolve_token(
    mods: Seq<LoadedModule>,
    m: LoadedModule,
    tok: SignatureToken,
    fuel: nat,
) -> Option<TypeV>
    decreases fuel, 0nat,
{
    match tok {
        SignatureToken::Bool => Some(TypeV::Bool),
        SignatureToken::U64 => Some(TypeV::U64),
        SignatureToken::Str => Some(TypeV::Str),
        SignatureToken::ByteArray => Some(TypeV::ByteArray),
        SignatureToken::Address => Some(TypeV::Address),
        SignatureToken::Struct(sh_idx, _) => if fuel == 0 {
            None
        } else {
            match spec_struct_handle_target(m, sh_idx as int) {
                Option::Some(target) => match spec_find_module(mods, target.0, 0) {
                    Option::Some(tm) => match spec_find_struct(tm, target.1, 0) {
                        Option::Some(def_idx) => match spec_resolve_tokens(
                            mods,
                            tm,
                            tm.struct_defs@[def_idx].field_types@,
                            0,
                            (fuel - 1) as nat,
                        ) {
                            Option::Some(fields) => Some(TypeV::Struct(fields)),
                            Option::None => None,
                        },
                        Option::None => None,
                    },
                    Option::None => None,
                },
                Option::None => None,
            }
        },
        SignatureToken::Reference(_) => None,
        SignatureToken::MutableReference(_) => None,
        SignatureToken::TypeParameter(_) => None,
    }
}

/// The resolutions of a list of field tokens, from `from` on.
pub open spec fn spec_resolve_tokens(
    mods: Seq<LoadedModule>,
    m: LoadedModule,
    toks: Seq<SignatureToken>,
    from: int,
    fuel: nat,
) -> Option<Seq<TypeV>>
    decreases fuel, toks.len() - from + 1,
{
    if from < 0 || from >= toks.len() {
        Some(Seq::empty())
    } else {
        match spec_resolve_token(mods, m, toks[from], fuel) {
            Option::Some(head) => match spec_resolve_tokens(mods, m, toks, from + 1, fuel) {
                Option::Some(rest) => Some(seq![head] + rest),
                Option::None => None,
            },
            Option::None => None,
        }
    }
}

/// An in-memory module cache over a list of loaded modules. Lookup answers
/// the first module with the queried identity.
pub struct VMModuleCache {
    modules: Vec<LoadedModule>,
}

impl VMModuleCache {
    /// The modules the cache holds.
    pub closed spec fn spec_modules(&self) -> Seq<LoadedModule> {
        self.modules@
    }

    /// An empty cache.
    pub fn new() -> (r: VMModuleCache)
        ensures
            r.spec_modules().len() == 0,
    {
        VMModuleCache { modules: Vec::new() }
    }

    /// Add a module to the cache. A module under an identity already cached
    /// is kept as it was.
    pub fn cache_module(&mut self, module: LoadedModule) -> (r: bool)
        ensures
            r == (spec_find_module(old(self).spec_modules(), module.id@, 0) is None),
            r ==> final(self).spec_modules() == old(self).spec_modules().push(module),
            !r ==> final(self).spec_modules() == old(self).spec_modules(),
    {
        let present = {
            let found = self.get_loaded_module_inner(&module.id);
            match found {
                Option::Some(_) => true,
                Option::None => false,
            }
        };
        if present {
            false
        } else {
            self.modules.push(module);
            true
        }
    }

    /// Look a module up, returning a borrow of the first match.
    fn get_loaded_module_inner<'a>(&'a self, id: &ModuleId) -> (r: Option<&'a LoadedModule>)
        ensures
            match spec_find_module(self.spec_modules(), id@, 0) {
                Some(m) => r is Some && *r->0 == m && m.id@ == id@,
                None => r is None,
            },
    {
        let mut i: usize = 0;
        while i < self.modules.len()
            invariant
                i <= self.modules@.len(),
                spec_find_module(self.modules@, id@, 0) == spec_find_module(
                    self.modules@,
                    id@,
                    i as int,
                ),
            decreases self.modules@.len() - i,
        {
            if self.modules[i].id.equals(id) {
                return Some(&self.modules[i]);
            }
            i += 1;
        }
        None
    }

    /// Resolve one signature token of `m` to a runtime type, spending fuel
    /// on each struct handle crossed.
    fn resolve_token(&self, m: &LoadedModule, tok: &SignatureToken, fuel: u64) -> (r: Option<Type>)
        ensures
            match spec_resolve_token(self.spec_modules(), *m, *tok, fuel as nat) {
                Some(t) => r is Some && r->0@ == t,
                None => r is None,
            },
        decreases fuel, 0nat, 0nat,
    {
        match tok {
            SignatureToken::Bool => Some(Type::Bool),
            SignatureToken::U64 => Some(Type::U64),
            SignatureToken::Str => Some(Type::Str),
            SignatureToken::ByteArray => Some(Type::ByteArray),
            SignatureToken::Address => Some(Type::Address),
            SignatureToken::Struct(sh_idx, _) => {
                if fuel == 0 {
                    return None;
                }
                if (*sh_idx as usize) >= m.struct_handles.len() {
                    return None;
                }
                let sh = m.struct_handles[*sh_idx as usize];
                if (sh.module as usize) >= m.module_handles.len() || (sh.name as usize)
                    >= m.identifiers.len() {
                    return None;
                }
                let mh = m.module_handles[sh.module as usize];
                if (mh.address as usize) >= m.address_pool.len() || (mh.name as usize)
                    >= m.identifiers.len() {
                    return None;
                }
                let target_id = ModuleId::new(
                    m.address_pool[mh.address as usize].clone(),
                    m.identifiers[mh.name as usize].clone(),
                );
                let struct_name = m.identifiers[sh.name as usize].clone();
                let tm = match self.get_loaded_module_inner(&target_id) {
                    Option::Some(tm) => tm,
                    Option::None => {
                        return None;
                    },
                };
                let def_idx = match tm.find_struct_def(&struct_name) {
                    Option::Some(i) => i,
                    Option::None => {
                        return None;
                    },
                };
                let fields = match self.resolve_tokens(
                    tm,
                    &tm.struct_defs[def_idx].field_types,
                    0,
                    fuel - 1,
                ) {
                    Option::Some(fs) => fs,
                    Option::None => {
                        return None;
                    },
                };
                Some(Type::Struct(StructDef::new(fields)))
            },
            SignatureToken::Reference(_) => None,
            SignatureToken::MutableReference(_) => None,
            SignatureToken::TypeParameter(_) => None,
        }
    }

    /// Resolve the field tokens of a struct definition, from `from` on.
    fn resolve_tokens(&self, m: &LoadedModule, toks: &Vec<SignatureToken>, from: usize, fuel: u64)
        -> (r: Option<Vec<Type>>)
        requires
            from <= toks@.len(),
        ensures
            match spec_resolve_tokens(self.spec_modules(), *m, toks@, from as int, fuel as nat) {
                Some(ts) => r is Some && crate::canonical::views_of_types(r->0@) == ts,
                None => r is None,
            },
        decreases fuel, toks@.len() - from + 1, 1nat,
    {
        if from == toks.len() {
            let empty: Vec<Type> = Vec::new();
            proof {
                crate::canonical::lemma_views_of_types(empty@);
                assert(crate::canonical::views_of_types(empty@) =~= Seq::<TypeV>::empty());
            }
            return Some(empty);
        }
        let head = match self.resolve_token(m, &toks[from], fuel) {
            Option::Some(t) => t,
            Option::None => {
                return None;
            },
        };
        let rest = match self.resolve_tokens(m, toks, from + 1, fuel) {
            Option::Some(ts) => ts,
            Option::None => {
                return None;
            },
        };
        let ghost vhead = head@;
        let ghost vrest_seq = rest@;
        proof {
            crate::canonical::lemma_views_of_types(rest@);
        }
        let mut out: Vec<Type> = Vec::new();
        out.push(head);
        let mut rest_mut = rest;
        out.append(&mut rest_mut);
        proof {
            crate::canonical::lemma_views_of_types(out@);
            crate::canonical::lemma_views_of_types(vrest_seq);
            let x = spec_resolve_tokens(
                self.spec_modules(),
                *m,
                toks@,
                from as int,
                fuel as nat,
            )->0;
            assert(out@ =~= seq![out@[0]] + vrest_seq);
            assert forall|i: int|
                0 <= i < out@.len() implies crate::canonical::views_of_types(out@)[i] == x[i] by {
                if i == 0 {
                    assert(out@[0]@ == vhead);
                } else {
                    assert(out@[i] == vrest_seq[i - 1]);
                    assert(crate::canonical::views_of_types(vrest_seq)[i - 1] == vrest_seq[i
                        - 1]@);
                }
            }
            assert(crate::canonical::views_of_types(out@) =~= x);
        }
        Some(out)
    }
}

impl ModuleCache for VMModuleCache {
    closed spec fn spec_get(&self, id: ModuleIdV) -> Option<LoadedModule> {
        spec_find_module(self.modules@, id, 0)
    }

    closed spec fn spec_function_ref(&self, module: LoadedModule, idx: int) -> Option<
        (LoadedModule, int),
    > {
        if 0 <= idx < module.function_handles@.len() {
            let fh = module.function_handles@[idx];
            if fh.module < module.module_handles@.len() && fh.name < module.identifiers@.len() {
                let mh = module.module_handles@[fh.module as int];
                if mh.address < module.address_pool@.len() && mh.name
                    < module.identifiers@.len() {
                    let target_id = ModuleIdV {
                        address: module.address_pool@[mh.address as int]@,
                        name: module.identifiers@[mh.name as int]@,
                    };
                    match spec_find_module(self.modules@, target_id, 0) {
                        Option::Some(tm) => match spec_find_function(
                            tm,
                            module.identifiers@[fh.name as int]@,
                            0,
                        ) {
                            Option::Some(i) => Some((tm, i)),
                            Option::None => None,
                        },
                        Option::None => None,
                    }
                } else {
                    None
                }
            } else {
                None
            }
        } else {
            None
        }
    }

    closed spec fn spec_struct_def(&self, module: LoadedModule, idx: int) -> Option<Seq<TypeV>> {
        if 0 <= idx < module.struct_defs@.len() {
            spec_resolve_tokens(
                self.modules@,
                module,
                module.struct_defs@[idx].field_types@,
                0,
                MAX_TYPE_RESOLUTION_DEPTH as nat,
            )
        } else {
            None
        }
    }

    fn get_loaded_module<'a>(&'a self, id: &ModuleId) -> (r: Option<&'a LoadedModule>) {
        self.get_loaded_module_inner(id)
    }

    fn resolve_function_ref<'a>(&'a self, module: &LoadedModule, idx: FunctionHandleIndex) -> (r:
        Option<FunctionRef<'a>>) {
        if (idx as usize) >= module.function_handles.len() {
            return None;
        }
        let fh = module.function_handles[idx as usize];
        if (fh.module as usize) >= module.module_handles.len() || (fh.name as usize)
            >= module.identifiers.len() {
            return None;
        }
        let mh = module.module_handles[fh.module as usize];
        if (mh.address as usize) >= module.address_pool.len() || (mh.name as usize)
            >= module.identifiers.len() {
            return None;
        }
        let target_id = ModuleId::new(
            module.address_pool[mh.address as usize].clone(),
            module.identifiers[mh.name as usize].clone(),
        );
        let fname = module.identifiers[fh.name as usize].clone();
        let tm = match self.get_loaded_module_inner(&target_id) {
            Option::Some(tm) => tm,
            Option::None => {
                return None;
            },
        };
        match tm.find_function_def(&fname) {
            Option::Some(i) => Some(FunctionRef::new(tm, i)),
            Option::None => None,
        }
    }

    fn resolve_struct_def(&self, module: &LoadedModule, idx: StructDefinitionIndex) -> (r: Option<
        StructDef,
    >) {
        if (idx as usize) >= module.struct_defs.len() {
            return None;
        }
        match self.resolve_tokens(
            module,
            &module.struct_defs[idx as usize].field_types,
            0,
            MAX_TYPE_RESOLUTION_DEPTH,
        ) {
            Option::Some(tys) => Some(StructDef::new(tys)),
            Option::None => None,
        }
    }
}

} // verus!
