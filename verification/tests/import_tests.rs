use wasmedge::configure::ConfigureContext;
use wasmedge::import_object::ImportObjectContext;
use wasmedge::instance::function::{FunctionTypeContext, HostFunctionContext};
use wasmedge::instance::global::GlobalInstanceContext;
use wasmedge::instance::memory::MemoryInstanceContext;
use wasmedge::instance::table::TableInstanceContext;
use wasmedge::types::{
    HostRegistration, WasmEdgeLimit, WasmEdgeMutability, WasmEdgeRefType, WasmEdgeValType,
};
use wasmedge::value::WasmEdgeValueGenI32;
use wasmedge::vm::VMContext;

fn strings(items: &[&str]) -> Vec<String> {
    items.iter().map(|s| s.to_string()).collect()
}

#[test]
fn test_context_import_object() {
    let host_name = "extern";

    // Create import object with name ""
    let result = ImportObjectContext::create("");
    assert!(result.is_some());
    let _imp_obj = result.unwrap();

    // Create import object with name "extern"
    let result = ImportObjectContext::create(host_name);
    assert!(result.is_some());
    let mut imp_obj = result.unwrap();

    // Add host function "func-add": {externref, i32} -> {i32}
    let params = [
        WasmEdgeValType::WasmEdge_ValType_ExternRef,
        WasmEdgeValType::WasmEdge_ValType_I32,
    ];
    let result_types = [WasmEdgeValType::WasmEdge_ValType_I32];
    let result = FunctionTypeContext::create(Some(&params), Some(&result_types));
    assert!(result.is_some());
    let func_type = result.unwrap();
    let result = HostFunctionContext::create(&func_type, 1, 0);
    assert!(result.is_some());
    let host_func = result.unwrap();
    let host_name = "func-add";
    imp_obj.add_host_function(host_name, host_func);

    // Add host table "table"
    let table_limit = WasmEdgeLimit { HasMax: true, Min: 10, Max: 20 };
    let result = TableInstanceContext::create(WasmEdgeRefType::WasmEdge_RefType_FuncRef, table_limit);
    assert!(result.is_some());
    let host_table = result.unwrap();
    imp_obj.add_table("table", host_table);

    // Add host memory "memory"
    let mem_limit = WasmEdgeLimit { HasMax: true, Min: 1, Max: 2 };
    let result = MemoryInstanceContext::create(mem_limit);
    assert!(result.is_some());
    let host_memory = result.unwrap();
    imp_obj.add_memory("memory", host_memory);

    // Add host global "global_i32": const 666
    let result = GlobalInstanceContext::create(
        WasmEdgeValueGenI32(666),
        WasmEdgeMutability::WasmEdge_Mutability_Const,
    );
    assert!(result.is_some());
    let host_global = result.unwrap();
    imp_obj.add_global("global_i32", host_global);
}

#[test]
fn test_context_import_object_create_wasi() {
    let args = strings(&["arg1", "arg2"]);
    let envs = strings(&["ENV1=VAL1", "ENV2=VAL2", "ENV3=VAL3"]);
    let dirs = strings(&[".:."]);
    let preopens = strings(&["apiTestData", "Makefile", "CMakeFiles", "ssvmAPICoreTests"]);

    // Create WASI
    let result =
        ImportObjectContext::create_wasi(Some(&args), Some(&envs), Some(&dirs), Some(&preopens));
    assert!(result.is_some());
    let _imp_obj = result.unwrap();
}

#[test]
fn test_context_import_object_init_wasi_in_vm() {
    let args = strings(&["arg1", "arg2"]);
    let envs = strings(&["ENV1=VAL1", "ENV2=VAL2", "ENV3=VAL3"]);
    let dirs = strings(&[".:."]);
    let preopens = strings(&["apiTestData", "Makefile", "CMakeFiles", "ssvmAPICoreTests"]);

    // Initialize WASI in VM.
    let mut conf = ConfigureContext::create();
    conf.add_host_registration(HostRegistration::WasmEdge_HostRegistration_Wasi);
    let vm = VMContext::create(Some(&conf), None);
    assert!(vm.is_some());
    let mut vm = vm.unwrap();
    let result = vm.import_object(HostRegistration::WasmEdge_HostRegistration_Wasi);
    assert!(result.is_some());
    let imp_obj = result.unwrap();
    imp_obj.init_wasi(&args, &envs, &dirs, &preopens);
}

#[test]
fn test_context_import_object_init_process_in_vm() {
    // Initialize the process capability in VM.
    let mut conf = ConfigureContext::create();
    conf.add_host_registration(HostRegistration::WasmEdge_HostRegistration_WasmEdge_Process);
    let vm = VMContext::create(Some(&conf), None);
    assert!(vm.is_some());
    let mut vm = vm.unwrap();
    let result =
        vm.import_object(HostRegistration::WasmEdge_HostRegistration_WasmEdge_Process);
    assert!(result.is_some());
    let imp_obj = result.unwrap();
    assert!(imp_obj.is_empty());
    // the capability that was not registered is absent
    let result = vm.import_object(HostRegistration::WasmEdge_HostRegistration_Wasi);
    assert!(result.is_none());
}
