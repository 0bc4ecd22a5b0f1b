use wasmedge::ast::{
    ASTModuleContext, FuncDecl, GlobalDecl, MemoryDecl, ModuleContent, TableDecl,
};
use wasmedge::configure::ConfigureContext;
use wasmedge::import_object::ImportObjectContext;
use wasmedge::instance::function::{FunctionTypeContext, HostFunctionContext};
use wasmedge::interpreter::InterpreterContext;
use wasmedge::store::StoreContext;
use wasmedge::types::{
    HostRegistration, WasmEdgeLimit, WasmEdgeMutability, WasmEdgeProposal, WasmEdgeRefType,
    WasmEdgeValType,
};
use wasmedge::value::{WasmEdgeValueGenF32, WasmEdgeValueGenI32};

fn func(name: &str, params: Vec<WasmEdgeValType>, results: Vec<WasmEdgeValType>, func_id: u64) -> FuncDecl {
    FuncDecl { name: name.to_string(), params, results, func_id, cost: 0 }
}

fn test_module_content() -> ModuleContent {
    let i32t = WasmEdgeValType::WasmEdge_ValType_I32;
    let eref = WasmEdgeValType::WasmEdge_ValType_ExternRef;
    ModuleContent {
        funcs: vec![
            func("func-1", vec![], vec![], 100),
            func("func-2", vec![], vec![], 101),
            func("func-3", vec![], vec![], 102),
            func("func-4", vec![], vec![], 103),
            func("func-add", vec![eref, i32t], vec![i32t], 1),
            func("func-call-indirect", vec![], vec![i32t], 104),
            func("func-host-add", vec![i32t], vec![i32t], 105),
            func("func-host-div", vec![i32t], vec![i32t], 106),
            func("func-host-mul", vec![i32t], vec![i32t], 107),
            func("func-host-sub", vec![i32t], vec![i32t], 108),
            func("func-mul-2", vec![i32t, i32t], vec![i32t, i32t], 10),
        ],
        tables: vec![
            TableDecl {
                name: "tab-func".to_string(),
                ref_type: WasmEdgeRefType::WasmEdge_RefType_FuncRef,
                limit: WasmEdgeLimit { HasMax: true, Min: 10, Max: 20 },
            },
            TableDecl {
                name: "tab-ext".to_string(),
                ref_type: WasmEdgeRefType::WasmEdge_RefType_ExternRef,
                limit: WasmEdgeLimit { HasMax: true, Min: 10, Max: 10 },
            },
        ],
        memories: vec![MemoryDecl {
            name: "mem".to_string(),
            limit: WasmEdgeLimit { HasMax: true, Min: 1, Max: 3 },
        }],
        globals: vec![
            GlobalDecl {
                name: "glob-mut-i32".to_string(),
                value: WasmEdgeValueGenI32(142),
                mutability: WasmEdgeMutability::WasmEdge_Mutability_Var,
            },
            GlobalDecl {
                name: "glob-const-f32".to_string(),
                value: WasmEdgeValueGenF32(789.4f32.to_bits()),
                mutability: WasmEdgeMutability::WasmEdge_Mutability_Const,
            },
        ],
    }
}

fn create_extern_module(name: &str) -> ImportObjectContext {
    let mut imp_obj = ImportObjectContext::create(name).unwrap();

    let params = [
        WasmEdgeValType::WasmEdge_ValType_ExternRef,
        WasmEdgeValType::WasmEdge_ValType_I32,
    ];
    let result_types = [WasmEdgeValType::WasmEdge_ValType_I32];
    let host_ftype = FunctionTypeContext::create(Some(&params), Some(&result_types)).unwrap();

    let host_func = HostFunctionContext::create(&host_ftype, 1, 0).unwrap();
    imp_obj.add_host_function("func-add", host_func);
    let host_func = HostFunctionContext::create(&host_ftype, 2, 0).unwrap();
    imp_obj.add_host_function("func-sub", host_func);
    let host_func = HostFunctionContext::create(&host_ftype, 3, 0).unwrap();
    imp_obj.add_host_function("func-mul", host_func);
    let host_func = HostFunctionContext::create(&host_ftype, 4, 0).unwrap();
    imp_obj.add_host_function("func-div", host_func);

    let host_ftype = FunctionTypeContext::create(None, Some(&result_types)).unwrap();
    let host_func = HostFunctionContext::create(&host_ftype, 5, 0).unwrap();
    imp_obj.add_host_function("func-term", host_func);
    let host_func = HostFunctionContext::create(&host_ftype, 6, 0).unwrap();
    imp_obj.add_host_function("func-fail", host_func);

    imp_obj
}

fn instantiate_module(
    conf: &ConfigureContext,
    store: &mut StoreContext,
    ast_mod: &ASTModuleContext,
    imp_obj: ImportObjectContext,
) -> bool {
    let res = InterpreterContext::create(Some(conf), None);
    if res.is_none() {
        return false;
    }
    let mut interp = res.unwrap();
    if !interp.register_import_object_module(store, imp_obj).is_ok() {
        return false;
    }
    if !interp.register_ast_module(store, ast_mod, "module").is_ok() {
        return false;
    }
    if !interp.instantiate(store, ast_mod).is_ok() {
        return false;
    }
    true
}

#[test]
fn test_context_store() {
    // create contexts
    let mut conf = ConfigureContext::create();
    conf.add_host_registration(HostRegistration::WasmEdge_HostRegistration_Wasi);
    conf.add_host_registration(HostRegistration::WasmEdge_HostRegistration_WasmEdge_Process);
    conf.add_proposal(WasmEdgeProposal::WasmEdge_Proposal_ReferenceTypes);
    let mut store = StoreContext::create();
    let mod_name = vec!["module", "extern", "no-such-module"];
    let err_name = "invalid-instance-name";

    // Store list exports before instantiation
    assert_eq!(store.list_function_len(), 0);
    assert_eq!(store.list_table_len(), 0);
    assert_eq!(store.list_memory_len(), 0);
    assert_eq!(store.list_global_len(), 0);
    assert_eq!(store.list_function_registered_len(mod_name[1]), 0);
    assert_eq!(store.list_table_registered_len(mod_name[1]), 0);
    assert_eq!(store.list_memory_registered_len(mod_name[1]), 0);
    assert_eq!(store.list_global_registered_len(mod_name[1]), 0);
    assert_eq!(store.list_module_len(), 0);

    // Register host module and instantiate wasm module
    let imp_obj = create_extern_module("extern");
    let ast_mod = ASTModuleContext::from_content(test_module_content());
    assert!(ast_mod.parsed());
    assert!(instantiate_module(&conf, &mut store, &ast_mod, imp_obj));

    // Store list function exports
    assert_eq!(store.list_function_len(), 11);
    let result = store.list_function(4);
    assert!(result.is_ok());
    let (len, func_names) = result.unwrap();
    assert_eq!(len, 11);
    for name in func_names.into_iter() {
        drop(name);
    }
    let result = store.list_function(11);
    assert!(result.is_ok());
    let (len, func_names) = result.unwrap();
    assert_eq!(len, 11);

    // store find function
    let res = store.find_function(&func_names[0]);
    assert!(res.is_some());

    // Store list function exports registered
    assert_eq!(store.list_function_registered_len(mod_name[0]), 11);
    assert_eq!(store.list_function_registered_len(mod_name[1]), 6);
    assert_eq!(store.list_function_registered_len(mod_name[2]), 0);
    let result = store.list_function_registered(mod_name[0], 11);
    assert!(result.is_ok());
    let (len, func_names) = result.unwrap();
    assert_eq!(len, 11);
    println!("func_names: {:?}", func_names);

    // Store find function registered
    assert!(store.find_function_registered(mod_name[0], err_name).is_none());

    // Store list table exports
    assert_eq!(store.list_table_len(), 2);
    let result = store.list_table(2);
    assert!(result.is_ok());
    let (len, table_names) = result.unwrap();
    assert_eq!(len, 2);
    println!("table_names: {:?}", table_names);

    // Store find table
    assert!(store.find_table(&table_names[1]).is_some());
    assert!(store.find_table(err_name).is_none());

    // Store list table exports registered
    assert_eq!(store.list_table_registered_len(mod_name[0]), 2);
    assert_eq!(store.list_table_registered_len(mod_name[1]), 0);
    assert_eq!(store.list_table_registered_len(mod_name[2]), 0);
    let result = store.list_table_registered(mod_name[0], 2);
    assert!(result.is_ok());
    let (len, table_names) = result.unwrap();
    assert_eq!(len, 2);
    println!("table_name: {:?}", table_names);

    // Store find table registered
    assert!(store.find_table_registered(mod_name[0], &table_names[0]).is_some());
    assert!(store.find_table_registered(mod_name[0], &table_names[1]).is_some());
    assert!(store.find_table_registered(mod_name[0], err_name).is_none());

    // Store list memory exports
    assert_eq!(store.list_memory_len(), 1);
    let result = store.list_memory(1);
    assert!(result.is_ok());
    let (len, memory_names) = result.unwrap();
    assert_eq!(len, 1);
    println!("memory_names: {:?}", memory_names);

    // Store find memory
    assert!(store.find_memory(&memory_names[0]).is_some());
    assert!(store.find_memory(&err_name).is_none());

    // Store list memory exports registered
    assert_eq!(store.list_memory_registered_len(mod_name[0]), 1);
    assert_eq!(store.list_memory_registered_len(mod_name[1]), 0);
    assert_eq!(store.list_memory_registered_len(mod_name[2]), 0);
    let result = store.list_memory_registered(mod_name[0], 1);
    assert!(result.is_ok());
    let (len, memory_names) = result.unwrap();
    assert_eq!(len, 1);
    println!("memory_reg_names: {:?}", memory_names);

    // Store find memory registered
    assert!(store.find_memory_registered(&mod_name[0], &memory_names[0]).is_some());
    assert!(store.find_memory_registered(&mod_name[0], &err_name).is_none());
    assert!(store.find_memory_registered(&mod_name[2], &memory_names[0]).is_none());

    // Store list global exports
    assert_eq!(store.list_global_len(), 2);
    let result = store.list_global(15);
    assert!(result.is_err());
    let result = store.list_global(2);
    assert!(result.is_ok());
    let (len, global_names) = result.unwrap();
    assert_eq!(len, 2);
    println!("global_names: {:?}", global_names);

    // Store find global
    assert!(store.find_global(&global_names[0]).is_some());
    assert!(store.find_global(err_name).is_none());

    // Store list global exports registered
    assert_eq!(store.list_global_registered_len(mod_name[0]), 2);
    assert_eq!(store.list_global_registered_len(mod_name[1]), 0);
    assert_eq!(store.list_global_registered_len(mod_name[2]), 0);
    let result = store.list_global_registered(mod_name[0], 2);
    assert!(result.is_ok());
    let (len, global_names) = result.unwrap();
    assert_eq!(len, 2);

    // Store find global registered
    assert!(store.find_global_registered(mod_name[0], &global_names[1]).is_some());
    assert!(store.find_global_registered(mod_name[0], err_name).is_none());
    assert!(store.find_global_registered(mod_name[2], &global_names[1]).is_none());

    // Store list module
    assert_eq!(store.list_module_len(), 2);
    let result = store.list_module(1);
    assert!(result.is_ok());
    let (len, _mod_names) = result.unwrap();
    assert_eq!(len, 2);
    let result = store.list_module(15);
    assert!(result.is_err());
    let err = result.unwrap_err();
    assert_eq!(err.message, "the buffer length should be between 1 and the number of entries");
}

#[test]
fn lookup_eleven_functions() {
    // a module exporting functions under eleven names
    let mut store = StoreContext::create();
    let ast_mod = ASTModuleContext::from_content(test_module_content());
    let mut interp = InterpreterContext::create(None, None).unwrap();
    assert!(interp.instantiate(&mut store, &ast_mod).is_ok());

    assert_eq!(store.list_function_len(), 11);
    // an unknown name is an absent result, not an error
    assert!(store.find_function("nonexistent").is_none());
    assert!(store.find_function("func-mul-2").is_some());
}

#[test]
fn listing_buffer_must_fit_between_one_and_the_count() {
    let mut store = StoreContext::create();
    let ast_mod = ASTModuleContext::from_content(test_module_content());
    let mut interp = InterpreterContext::create(None, None).unwrap();
    assert!(interp.instantiate(&mut store, &ast_mod).is_ok());

    // zero-length and over-capacity buffers fail locally
    assert!(store.list_function(0).is_err());
    assert!(store.list_function(12).is_err());
    // every length in range succeeds and reports the full count
    let mut limit: usize = 1;
    while limit <= 11 {
        let (total, names) = store.list_function(limit).unwrap();
        assert_eq!(total, 11);
        assert_eq!(names.len(), limit);
        limit += 1;
    }
    // the same holds for an empty registry: no buffer length is valid
    let empty = StoreContext::create();
    assert!(empty.list_function(0).is_err());
    assert!(empty.list_function(1).is_err());
}
