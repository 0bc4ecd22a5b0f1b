use wasmedge::ast::{
    ASTModuleContext, FuncDecl, GlobalDecl, MemoryDecl, ModuleContent, TableDecl,
};
use wasmedge::configure::ConfigureContext;
use wasmedge::error::{
    CODE_FUNC_NOT_FOUND, CODE_FUNC_SIG_MISMATCH, CODE_WRONG_INSTANCE_ADDRESS,
};
use wasmedge::host::{HostCallOutcome, HostRuntime};
use wasmedge::import_object::ImportObjectContext;
use wasmedge::instance::function::{FunctionTypeContext, HostFunctionContext};
use wasmedge::interpreter::InterpreterContext;
use wasmedge::statistics::StatisticsContext;
use wasmedge::store::StoreContext;
use wasmedge::types::{
    WasmEdgeLimit, WasmEdgeMutability, WasmEdgeProposal, WasmEdgeRefType, WasmEdgeValType,
};
use wasmedge::value::{
    WasmEdgeValue, WasmEdgeValueGenExternRef, WasmEdgeValueGenI32, WasmEdgeValueGenI64,
    WasmEdgeValueGetExternRef, WasmEdgeValueGetI32,
};

/// The runtime of these tests: it resolves external references through its
/// own table of host values and dispatches on the function key.
struct TestRuntime {
    refs: Vec<(usize, i32)>,
}

impl TestRuntime {
    fn new() -> TestRuntime {
        TestRuntime { refs: Vec::new() }
    }

    fn with_ref(addr: usize, value: i32) -> TestRuntime {
        TestRuntime { refs: vec![(addr, value)] }
    }

    fn resolve(&self, addr: usize) -> i32 {
        for entry in self.refs.iter() {
            if entry.0 == addr {
                return entry.1;
            }
        }
        0
    }

    fn ok(values: Vec<WasmEdgeValue>) -> HostCallOutcome {
        HostCallOutcome { code: 0, message: "success".to_string(), values }
    }
}

impl HostRuntime for TestRuntime {
    fn invoke(&mut self, func_id: u64, params: &Vec<WasmEdgeValue>) -> HostCallOutcome {
        match func_id {
            1 => {
                let a = self.resolve(WasmEdgeValueGetExternRef(params[0]));
                let b = WasmEdgeValueGetI32(params[1]);
                TestRuntime::ok(vec![WasmEdgeValueGenI32(a + b)])
            }
            2 => {
                let a = self.resolve(WasmEdgeValueGetExternRef(params[0]));
                let b = WasmEdgeValueGetI32(params[1]);
                TestRuntime::ok(vec![WasmEdgeValueGenI32(a - b)])
            }
            3 => {
                let a = self.resolve(WasmEdgeValueGetExternRef(params[0]));
                let b = WasmEdgeValueGetI32(params[1]);
                TestRuntime::ok(vec![WasmEdgeValueGenI32(a * b)])
            }
            4 => {
                let a = self.resolve(WasmEdgeValueGetExternRef(params[0]));
                let b = WasmEdgeValueGetI32(params[1]);
                TestRuntime::ok(vec![WasmEdgeValueGenI32(a / b)])
            }
            5 => HostCallOutcome {
                code: 1,
                message: "terminated".to_string(),
                values: vec![WasmEdgeValueGenI32(1234)],
            },
            6 => HostCallOutcome {
                code: 2,
                message: "failed".to_string(),
                values: vec![WasmEdgeValueGenI32(5678)],
            },
            10 => {
                let a = WasmEdgeValueGetI32(params[0]);
                let b = WasmEdgeValueGetI32(params[1]);
                TestRuntime::ok(vec![WasmEdgeValueGenI32(2 * a), WasmEdgeValueGenI32(2 * b)])
            }
            _ => TestRuntime::ok(vec![]),
        }
    }
}

fn func(name: &str, params: Vec<WasmEdgeValType>, results: Vec<WasmEdgeValType>, func_id: u64) -> FuncDecl {
    FuncDecl { name: name.to_string(), params, results, func_id, cost: 0 }
}

fn test_module_content() -> ModuleContent {
    let i32t = WasmEdgeValType::WasmEdge_ValType_I32;
    let eref = WasmEdgeValType::WasmEdge_ValType_ExternRef;
    ModuleContent {
        funcs: vec![
            func("func-1", vec![], vec![], 100),
            func("func-2", vec![], vec![], 101),
            func("func-3", vec![], vec![], 102),
            func("func-4", vec![], vec![], 103),
            func("func-add", vec![eref, i32t], vec![i32t], 1),
            func("func-call-indirect", vec![], vec![i32t], 104),
            func("func-host-add", vec![i32t], vec![i32t], 105),
            func("func-host-div", vec![i32t], vec![i32t], 106),
            func("func-host-mul", vec![i32t], vec![i32t], 107),
            func("func-host-sub", vec![i32t], vec![i32t], 108),
            func("func-mul-2", vec![i32t, i32t], vec![i32t, i32t], 10),
        ],
        tables: vec![TableDecl {
            name: "tab-ext".to_string(),
            ref_type: WasmEdgeRefType::WasmEdge_RefType_ExternRef,
            limit: WasmEdgeLimit { HasMax: true, Min: 10, Max: 10 },
        }],
        memories: vec![MemoryDecl {
            name: "mem".to_string(),
            limit: WasmEdgeLimit { HasMax: true, Min: 1, Max: 3 },
        }],
        globals: vec![GlobalDecl {
            name: "glob-mut-i32".to_string(),
            value: WasmEdgeValueGenI32(142),
            mutability: WasmEdgeMutability::WasmEdge_Mutability_Var,
        }],
    }
}

fn create_extern_module(name: &str) -> ImportObjectContext {
    let mut imp_obj = ImportObjectContext::create(name).unwrap();

    let params = [
        WasmEdgeValType::WasmEdge_ValType_ExternRef,
        WasmEdgeValType::WasmEdge_ValType_I32,
    ];
    let result_types = [WasmEdgeValType::WasmEdge_ValType_I32];
    let host_ftype = FunctionTypeContext::create(Some(&params), Some(&result_types)).unwrap();

    let host_func = HostFunctionContext::create(&host_ftype, 1, 0).unwrap();
    imp_obj.add_host_function("func-add", host_func);
    let host_func = HostFunctionContext::create(&host_ftype, 2, 0).unwrap();
    imp_obj.add_host_function("func-sub", host_func);
    let host_func = HostFunctionContext::create(&host_ftype, 3, 0).unwrap();
    imp_obj.add_host_function("func-mul", host_func);
    let host_func = HostFunctionContext::create(&host_ftype, 4, 0).unwrap();
    imp_obj.add_host_function("func-div", host_func);

    let host_ftype = FunctionTypeContext::create(None, Some(&result_types)).unwrap();
    let host_func = HostFunctionContext::create(&host_ftype, 5, 0).unwrap();
    imp_obj.add_host_function("func-term", host_func);
    let host_func = HostFunctionContext::create(&host_ftype, 6, 0).unwrap();
    imp_obj.add_host_function("func-fail", host_func);

    imp_obj
}

#[test]
fn test_interpreter_create() {
    let mut conf = ConfigureContext::create();
    conf.add_proposal(WasmEdgeProposal::WasmEdge_Proposal_ReferenceTypes);

    // load and validate the module
    let ast_mod = ASTModuleContext::from_content(test_module_content());
    assert!(ast_mod.parsed());

    // statistics creation
    let result = StatisticsContext::create();
    assert!(result.is_some());
    let mut stat = result.unwrap();

    // Statistics set cost table
    let cost_table = vec![20u64; 512];
    stat.set_cost_table(&cost_table);

    // Statistics set cost limit
    let limit = 100000000000000u64;
    stat.set_cost_limit(limit);

    // Interpreter creation
    let result = InterpreterContext::create(None, None);
    assert!(result.is_some());
    let result = InterpreterContext::create(Some(&conf), None);
    assert!(result.is_some());
    let result = InterpreterContext::create(None, Some(&stat));
    assert!(result.is_some());
    let result = InterpreterContext::create(Some(&conf), Some(&stat));
    assert!(result.is_some());
}

#[test]
fn test_interpreter_register() {
    let mut conf = ConfigureContext::create();
    conf.add_proposal(WasmEdgeProposal::WasmEdge_Proposal_ReferenceTypes);
    let mut runtime = TestRuntime::with_ref(0x5000, 5000);

    // load and validate the module
    let ast_mod = ASTModuleContext::from_content(test_module_content());
    assert!(ast_mod.parsed());

    // Interpreter creation
    let result = InterpreterContext::create(Some(&conf), None);
    assert!(result.is_some());
    let mut interp = result.unwrap();

    // register import object
    let imp_obj = create_extern_module("extern");
    let mut store = StoreContext::create();
    assert!(interp.register_import_object_module(&mut store, imp_obj).is_ok());
    // a second module under the same name is a name conflict
    let imp_obj2 = create_extern_module("extern");
    assert!(interp.register_import_object_module(&mut store, imp_obj2).is_err());

    // register wasm module
    assert!(interp.register_ast_module(&mut store, &ast_mod, "module").is_ok());

    // instantiate wasm module
    assert!(interp.instantiate(&mut store, &ast_mod).is_ok());
    // override instantiated wasm
    assert!(interp.instantiate(&mut store, &ast_mod).is_ok());

    // invoke functions
    let params = vec![WasmEdgeValueGenI32(123), WasmEdgeValueGenI32(456)];
    let result = interp.invoke(&mut store, &mut runtime, "func-mul-2", Some(&params), 2);
    assert!(result.is_ok());
    let values = result.unwrap();
    assert_eq!(246, WasmEdgeValueGetI32(values[0]));
    assert_eq!(912, WasmEdgeValueGetI32(values[1]));

    // Function type mismatch
    let params = vec![WasmEdgeValueGenI64(123), WasmEdgeValueGenI32(456)];
    let result = interp.invoke(&mut store, &mut runtime, "func-mul-2", Some(&params), 2);
    assert!(result.is_err());
    assert_eq!(result.unwrap_err().code, CODE_FUNC_SIG_MISMATCH);

    // Function not found
    let params = vec![WasmEdgeValueGenI32(123), WasmEdgeValueGenI32(456)];
    let result = interp.invoke(&mut store, &mut runtime, "func-mul-3", Some(&params), 2);
    assert!(result.is_err());
    assert_eq!(result.unwrap_err().code, CODE_FUNC_NOT_FOUND);

    // Discard result
    let params = vec![WasmEdgeValueGenI32(123), WasmEdgeValueGenI32(456)];
    let result = interp.invoke(&mut store, &mut runtime, "func-mul-2", Some(&params), 0);
    assert!(result.is_ok());
    assert_eq!(result.unwrap().len(), 0);
    let params = vec![WasmEdgeValueGenI32(123), WasmEdgeValueGenI32(456)];
    let result = interp.invoke(&mut store, &mut runtime, "func-mul-2", Some(&params), 1);
    assert!(result.is_ok());
    assert_eq!(result.unwrap().len(), 1);

    // Invoke functions of registered module: a registered host-provided
    // function bound to (externref, i32) -> i32, with an external
    // reference standing for the host integer 5000 and argument 1500.
    let mod_name = "extern";
    let mod_name2 = "error-name";
    let func_name = "func-add";
    let func_name2 = "func-add2";
    let params = vec![WasmEdgeValueGenExternRef(0x5000), WasmEdgeValueGenI32(1500)];
    let result =
        interp.invoke_registered(&mut store, &mut runtime, mod_name, func_name, Some(&params), 1);
    assert!(result.is_ok());
    let values = result.unwrap();
    assert_eq!(6500i32, WasmEdgeValueGetI32(values[0]));

    // Module not found
    let result =
        interp.invoke_registered(&mut store, &mut runtime, mod_name2, func_name, Some(&params), 1);
    assert!(result.is_err());
    assert_eq!(result.unwrap_err().code, CODE_WRONG_INSTANCE_ADDRESS);

    // Function not found
    let result =
        interp.invoke_registered(&mut store, &mut runtime, mod_name, func_name2, Some(&params), 1);
    assert!(result.is_err());
    assert_eq!(result.unwrap_err().code, CODE_FUNC_NOT_FOUND);

    // Discard result
    let params = vec![WasmEdgeValueGenExternRef(0x5000), WasmEdgeValueGenI32(1500)];
    let result =
        interp.invoke_registered(&mut store, &mut runtime, mod_name, func_name, Some(&params), 0);
    assert!(result.is_ok());

    // Invoke host function to terminate execution: reported as success
    let result =
        interp.invoke_registered(&mut store, &mut runtime, "extern", "func-term", None, 1);
    assert!(result.is_ok());

    // Invoke host function to fail execution
    let result =
        interp.invoke_registered(&mut store, &mut runtime, "extern", "func-fail", None, 1);
    assert!(result.is_err());
}
