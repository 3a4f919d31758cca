use retour_utils::activation::{Registry, Step};
use retour_utils::error::activation_result;
use retour_utils::lookup::{Export, LoadedModule, ModuleTable};
use retour_utils::slot::{EngineRequest, SlotState};
use retour_utils::{init_detour, EngineError, Error, LookupData};

fn loaded(name: &str, base: usize) -> ModuleTable {
    ModuleTable {
        modules: vec![LoadedModule {
            name: name.to_string(),
            base,
            exports: vec![Export { name: "lua_newstate".to_string(), address: base + 0x200 }],
        }],
    }
}

#[test]
fn init_detour_hands_the_resolved_address_over() {
    let lookup = LookupData::from_offset("lua52.dll".to_string(), 0x10);
    let table = loaded("lua52.dll", 0x40000);
    let mut seen = None;
    let result = init_detour(&lookup, &table, |address| {
        seen = Some(address);
        Ok(())
    });
    assert_eq!(result, Ok(()));
    assert_eq!(seen, Some(0x40010));
}

#[test]
fn init_detour_does_not_call_back_without_an_address() {
    let table = loaded("lua52.dll", 0x40000);
    let mut called = false;
    let absent = LookupData::from_offset("lua51.dll".to_string(), 0x10);
    let result = init_detour(&absent, &table, |_| {
        called = true;
        Ok(())
    });
    assert_eq!(result, Err(Error::ModuleNotLoaded));
    let missing = LookupData::from_symbol("lua52.dll".to_string(), "lua_close".to_string());
    let result = init_detour(&missing, &table, |_| {
        called = true;
        Ok(())
    });
    assert_eq!(result, Err(Error::SymbolNotFound));
    assert!(!called);
}

#[test]
fn init_detour_passes_an_engine_failure_on() {
    let lookup = LookupData::from_symbol("lua52.dll".to_string(), "lua_newstate".to_string());
    let table = loaded("lua52.dll", 0x40000);
    let result = init_detour(&lookup, &table, |_| Err(EngineError::NoPatchArea));
    assert_eq!(result, Err(Error::DetourError(EngineError::NoPatchArea)));
}

#[test]
fn engine_answers_are_wrapped() {
    assert_eq!(activation_result(Ok(())), Ok(()));
    assert_eq!(
        activation_result(Err(EngineError::SameAddress)),
        Err(Error::DetourError(EngineError::SameAddress))
    );
    assert_eq!(Error::from(EngineError::InvalidCode), Error::DetourError(EngineError::InvalidCode));
}

#[test]
fn hooks_are_activated_in_declaration_order() {
    let table = loaded("lua52.dll", 0x40000);
    let mut registry = Registry::new();
    assert_eq!(registry.register(LookupData::from_offset("lua52.dll".to_string(), 0x10)), 0);
    assert_eq!(
        registry.register(LookupData::from_symbol(
            "lua52.dll".to_string(),
            "lua_newstate".to_string()
        )),
        1
    );
    assert_eq!(registry.len(), 2);
    let install = EngineRequest::Install { address: 0x40010 };
    assert_eq!(registry.init_detours(&table), Step::Ask { hook: 0, request: install });
    assert_eq!(
        registry.resume(0, install, Ok(()), &table),
        Step::Ask { hook: 0, request: EngineRequest::Enable }
    );
    assert_eq!(registry.slot(0).unwrap().state(), SlotState::Initialized);
    let install = EngineRequest::Install { address: 0x40200 };
    assert_eq!(
        registry.resume(0, EngineRequest::Enable, Ok(()), &table),
        Step::Ask { hook: 1, request: install }
    );
    assert_eq!(
        registry.resume(1, install, Ok(()), &table),
        Step::Ask { hook: 1, request: EngineRequest::Enable }
    );
    assert_eq!(registry.resume(1, EngineRequest::Enable, Ok(()), &table), Step::Done(Ok(())));
    assert!(registry.slot(0).unwrap().is_enabled());
    assert!(registry.slot(1).unwrap().is_enabled());
    assert_eq!(registry.slot(1).unwrap().original_fn(), Some(0x40200));
    assert!(registry.slot(2).is_none());
}

#[test]
fn a_failure_stops_the_activation_without_rollback() {
    let table = loaded("lua52.dll", 0x40000);
    let mut registry = Registry::new();
    registry.register(LookupData::from_offset("lua52.dll".to_string(), 0x10));
    registry.register(LookupData::from_offset("unloaded.dll".to_string(), 0x20));
    let install = EngineRequest::Install { address: 0x40010 };
    assert_eq!(registry.init_detours(&table), Step::Ask { hook: 0, request: install });
    assert_eq!(
        registry.resume(0, install, Ok(()), &table),
        Step::Ask { hook: 0, request: EngineRequest::Enable }
    );
    assert_eq!(
        registry.resume(0, EngineRequest::Enable, Ok(()), &table),
        Step::Done(Err(Error::ModuleNotLoaded))
    );
    assert_eq!(registry.slot(0).unwrap().state(), SlotState::Enabled);
    assert_eq!(registry.slot(1).unwrap().state(), SlotState::Uninitialized);
}

#[test]
fn an_engine_failure_ends_the_activation() {
    let table = loaded("lua52.dll", 0x40000);
    let mut registry = Registry::new();
    registry.register(LookupData::from_offset("lua52.dll".to_string(), 0x10));
    registry.register(LookupData::from_offset("lua52.dll".to_string(), 0x20));
    let install = EngineRequest::Install { address: 0x40010 };
    assert_eq!(
        registry.resume(0, install, Err(EngineError::UnsupportedInstruction), &table),
        Step::Done(Err(Error::DetourError(EngineError::UnsupportedInstruction)))
    );
    assert_eq!(registry.slot(0).unwrap().state(), SlotState::Uninitialized);
    assert_eq!(registry.slot(1).unwrap().state(), SlotState::Uninitialized);
}

#[test]
fn a_second_activation_is_refused_by_the_first_slot() {
    let table = loaded("lua52.dll", 0x40000);
    let mut registry = Registry::new();
    registry.register(LookupData::from_offset("lua52.dll".to_string(), 0x10));
    let install = EngineRequest::Install { address: 0x40010 };
    registry.resume(0, install, Ok(()), &table);
    assert_eq!(registry.resume(0, EngineRequest::Enable, Ok(()), &table), Step::Done(Ok(())));
    assert_eq!(
        registry.init_detours(&table),
        Step::Done(Err(Error::DetourError(EngineError::AlreadyInitialized)))
    );
    assert!(registry.slot(0).unwrap().is_enabled());
}

#[test]
fn an_empty_registry_is_done_at_once() {
    let registry = Registry::new();
    assert_eq!(registry.init_detours(&ModuleTable { modules: vec![] }), Step::Done(Ok(())));
}
