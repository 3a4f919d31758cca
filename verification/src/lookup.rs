//! Descriptors of where a hooked function lives inside a loaded module, and
//! the resolver that turns one into an address.

use vstd::prelude::*;
use crate::error::Error;

verus! {

/// How to find a target function inside a named module.
#[derive(Debug, Clone, PartialEq, Eq)]
pub enum LookupData {
    /// A byte offset from the module's load base address.
    Offset { module: String, offset: usize },
    /// An exported symbol, resolved through the module's export table.
    Symbol { module: String, symbol: String },
}

/// One entry of a module's export table.
#[derive(Debug, Clone, PartialEq, Eq)]
pub struct Export {
    pub name: String,
    pub address: usize,
}

/// A module as the loader reports it: its name, where it was mapped, and the
/// exports the host has looked up in it.
#[derive(Debug, Clone, PartialEq, Eq)]
pub struct LoadedModule {
    pub name: String,
    pub base: usize,
    pub exports: Vec<Export>,
}

/// The loader's view of the process at the time of a resolution. Nothing is
/// cached: a later resolution takes a new table.
#[derive(Debug, Clone, PartialEq, Eq)]
pub struct ModuleTable {
    pub modules: Vec<LoadedModule>,
}

/// A lookup as a value.
pub enum LookupView {
    Offset { module: Seq<char>, offset: usize },
    Symbol { module: Seq<char>, symbol: Seq<char> },
}

impl View for LookupData {
    type V = LookupView;

    open spec fn view(&self) -> LookupView {
        match self {
            LookupData::Offset { module, offset } => LookupView::Offset {
                module: module@,
                offset: *offset,
            },
            LookupData::Symbol { module, symbol } => LookupView::Symbol {
                module: module@,
                symbol: symbol@,
            },
        }
    }
}

/// The address of the first export called `symbol`, if there is one.
pub open spec fn find_export(exports: Seq<Export>, symbol: Seq<char>) -> Option<usize>
    decreases exports.len(),
{
    if exports.len() == 0 {
        None
    } else if exports[0].name@ == symbol {
        Some(exports[0].address)
    } else {
        find_export(exports.drop_first(), symbol)
    }
}

/// The first module called `name`, if one is loaded.
pub open spec fn find_module(modules: Seq<LoadedModule>, name: Seq<char>) -> Option<LoadedModule>
    decreases modules.len(),
{
    if modules.len() == 0 {
        None
    } else if modules[0].name@ == name {
        Some(modules[0])
    } else {
        find_module(modules.drop_first(), name)
    }
}

/// The address a lookup denotes inside a module that is known to be loaded.
/// An offset is added to the base without any bounds validation; the sum
/// wraps at the width of an address.
pub open spec fn address_in_module(lookup: LookupData, module: LoadedModule) -> Option<usize> {
    match lookup {
        LookupData::Offset { offset, .. } => Some(module.base.wrapping_add(offset)),
        LookupData::Symbol { symbol, .. } => find_export(module.exports@, symbol@),
    }
}

/// What resolving `lookup` against `modules` yields.
pub open spec fn resolution(lookup: LookupData, modules: Seq<LoadedModule>) -> Result<usize, Error> {
    match find_module(modules, lookup.module_name()) {
        None => Err(Error::ModuleNotLoaded),
        Some(module) => match address_in_module(lookup, module) {
            Some(address) => Ok(address),
            None => Err(Error::SymbolNotFound),
        },
    }
}

impl LookupData {
    /// The name of the module that holds the target.
    pub open spec fn module_name(self) -> Seq<char> {
        match self {
            LookupData::Offset { module, .. } => module@,
            LookupData::Symbol { module, .. } => module@,
        }
    }

    pub fn from_offset(module: String, offset: usize) -> (r: Self)
        ensures
            r == (LookupData::Offset { module, offset }),
    {
        LookupData::Offset { module, offset }
    }

    pub fn from_symbol(module: String, symbol: String) -> (r: Self)
        ensures
            r == (LookupData::Symbol { module, symbol }),
    {
        LookupData::Symbol { module, symbol }
    }

    pub fn get_module(&self) -> (r: &String)
        ensures
            r@ == self.module_name(),
            self matches LookupData::Offset { module, .. } ==> *r == module,
            self matches LookupData::Symbol { module, .. } ==> *r == module,
    {
        match self {
            LookupData::Offset { module, .. } => module,
            LookupData::Symbol { module, .. } => module,
        }
    }

    /// The target's address inside `module`, which the loader has reported
    /// under this lookup's module name. `None` means that the symbol is not
    /// exported.
    pub fn address_from_handle(&self, module: &LoadedModule) -> (r: Option<usize>)
        ensures
            r == address_in_module(*self, *module),
    {
        match self {
            LookupData::Offset { offset, .. } => Some(module.base.wrapping_add(*offset)),
            LookupData::Symbol { symbol, .. } => module.export(symbol),
        }
    }
}

impl LoadedModule {
    /// Looks `symbol` up in the export table.
    pub fn export(&self, symbol: &String) -> (r: Option<usize>)
        ensures
            r == find_export(self.exports@, symbol@),
    {
        let mut i: usize = 0;
        assert(self.exports@.skip(0) =~= self.exports@);
        while i < self.exports.len()
            invariant
                i <= self.exports.len(),
                find_export(self.exports@, symbol@) == find_export(
                    self.exports@.skip(i as int),
                    symbol@,
                ),
            decreases self.exports.len() - i,
        {
            if self.exports[i].name == *symbol {
                return Some(self.exports[i].address);
            }
            assert(self.exports@.skip(i as int).drop_first() == self.exports@.skip(i as int + 1));
            i += 1;
        }
        None
    }
}

impl ModuleTable {
    /// The first loaded module called `name`.
    pub fn module(&self, name: &String) -> (r: Option<&LoadedModule>)
        ensures
            match r {
                Some(m) => find_module(self.modules@, name@) == Some(*m),
                None => find_module(self.modules@, name@) is None,
            },
    {
        let mut i: usize = 0;
        assert(self.modules@.skip(0) =~= self.modules@);
        while i < self.modules.len()
            invariant
                i <= self.modules.len(),
                find_module(self.modules@, name@) == find_module(
                    self.modules@.skip(i as int),
                    name@,
                ),
            decreases self.modules.len() - i,
        {
            if self.modules[i].name == *name {
                return Some(&self.modules[i]);
            }
            assert(self.modules@.skip(i as int).drop_first() == self.modules@.skip(i as int + 1));
            i += 1;
        }
        None
    }
}

/// Resolves a lookup to an address. The module is found by name; an offset
/// is then added to its base, a symbol is looked up among its exports.
pub fn resolve(lookup: &LookupData, table: &ModuleTable) -> (r: Result<usize, Error>)
    ensures
        r == resolution(*lookup, table.modules@),
{
    match table.module(lookup.get_module()) {
        None => Err(Error::ModuleNotLoaded),
        Some(module) => match lookup.address_from_handle(module) {
            Some(address) => Ok(address),
            None => Err(Error::SymbolNotFound),
        },
    }
}

/// An offset into a loaded module resolves to the module's base plus the
/// offset, exactly, whenever that sum is an address.
pub proof fn lemma_offset_resolves_to_base_plus_offset(
    lookup: LookupData,
    modules: Seq<LoadedModule>,
    module: LoadedModule,
)
    requires
        lookup is Offset,
        find_module(modules, lookup.module_name()) == Some(module),
        module.base + lookup->offset <= usize::MAX,
    ensures
        resolution(lookup, modules) == Ok::<usize, Error>((module.base + lookup->offset) as usize),
{
}

/// A symbol that a loaded module does not export is reported as a missing
/// symbol, never as a missing module.
pub proof fn lemma_missing_symbol_is_not_missing_module(
    lookup: LookupData,
    modules: Seq<LoadedModule>,
    module: LoadedModule,
)
    requires
        lookup is Symbol,
        find_module(modules, lookup.module_name()) == Some(module),
        find_export(module.exports@, lookup->symbol@) is None,
    ensures
        resolution(lookup, modules) == Err::<usize, Error>(Error::SymbolNotFound),
{
}

/// Whatever the kind of lookup, a module that is not loaded is reported as
/// such.
pub proof fn lemma_unloaded_module_is_reported(lookup: LookupData, modules: Seq<LoadedModule>)
    requires
        forall|i: int| 0 <= i < modules.len() ==> modules[i].name@ != lookup.module_name(),
    ensures
        find_module(modules, lookup.module_name()) is None,
        resolution(lookup, modules) == Err::<usize, Error>(Error::ModuleNotLoaded),
    decreases modules.len(),
{
    if modules.len() > 0 {
        let rest = modules.drop_first();
        assert forall|i: int| 0 <= i < rest.len() implies rest[i].name@ != lookup.module_name() by {}
        lemma_unloaded_module_is_reported(lookup, rest);
    }
}

} // verus!
