use wasmedge::instance::function::FunctionTypeContext;
use wasmedge::instance::global::GlobalInstanceContext;
use wasmedge::instance::memory::MemoryInstanceContext;
use wasmedge::instance::table::TableInstanceContext;
use wasmedge::types::{
    WasmEdgeLimit, WasmEdgeMutability, WasmEdgeRefType, WasmEdgeValType,
};
use wasmedge::value::{
    WasmEdgeValueGenExternRef, WasmEdgeValueGenF32, WasmEdgeValueGenFuncRef, WasmEdgeValueGenI32,
    WasmEdgeValueGenI64, WasmEdgeValueGetExternRef, WasmEdgeValueGetI64,
};

#[test]
fn test_wasmedge_function_type() {
    let params = vec![
        WasmEdgeValType::WasmEdge_ValType_I32,
        WasmEdgeValType::WasmEdge_ValType_I64,
        WasmEdgeValType::WasmEdge_ValType_ExternRef,
        WasmEdgeValType::WasmEdge_ValType_V128,
        WasmEdgeValType::WasmEdge_ValType_F64,
        WasmEdgeValType::WasmEdge_ValType_F32,
    ];
    let result_types = vec![
        WasmEdgeValType::WasmEdge_ValType_FuncRef,
        WasmEdgeValType::WasmEdge_ValType_ExternRef,
        WasmEdgeValType::WasmEdge_ValType_V128,
    ];
    let result = FunctionTypeContext::create(Some(&params), Some(&result_types));
    assert!(result.is_some());
    let func_type = result.unwrap();
    assert_eq!(func_type.parameters_len(), 6 as usize);
    assert_eq!(func_type.returns_len(), 3 as usize);

    let result = func_type.parameters(6);
    assert!(result.is_ok());
    let (len, val_types) = result.unwrap();
    assert_eq!(len, 6);
    assert_eq!(params, val_types);

    let result = func_type.parameters(2);
    assert!(result.is_ok());
    let (len, val_types) = result.unwrap();
    assert_eq!(len, 6);
    assert_eq!(&params[..2], &val_types);

    let result = func_type.returns_list(3);
    assert!(result.is_ok());
    let (len, val_types) = result.unwrap();
    assert_eq!(len, 3);
    assert_eq!(result_types, val_types);

    let result = func_type.returns_list(2);
    assert!(result.is_ok());
    let (len, val_types) = result.unwrap();
    assert_eq!(len, 3);
    assert_eq!(&result_types[..2], &val_types);

    let result = FunctionTypeContext::create(None, None);
    assert!(result.is_some());
    let func_type = result.unwrap();
    assert_eq!(func_type.parameters_len(), 0);
    assert_eq!(func_type.returns_len(), 0);

    // A zero or over-large buffer is a usage error rejected locally.
    assert!(func_type.parameters(1).is_err());
    let six = FunctionTypeContext::create(Some(&params), None).unwrap();
    assert!(six.parameters(0).is_err());
    assert!(six.parameters(7).is_err());
}

#[test]
fn test_instance_global() {
    // Global instance creation
    let result = GlobalInstanceContext::create(
        WasmEdgeValueGenI64(55555555555),
        WasmEdgeMutability::WasmEdge_Mutability_Const,
    );
    assert!(result.is_some());
    let mut glob_c_ctx = result.unwrap();
    let result = GlobalInstanceContext::create(
        WasmEdgeValueGenI64(66666666666),
        WasmEdgeMutability::WasmEdge_Mutability_Var,
    );
    assert!(result.is_some());
    let mut glob_v_ctx = result.unwrap();

    // Global instance get value type
    assert_eq!(glob_c_ctx.val_type(), WasmEdgeValType::WasmEdge_ValType_I64);
    assert_eq!(glob_c_ctx.val_type(), WasmEdgeValType::WasmEdge_ValType_I64);

    // Global instance get mutability
    assert_eq!(glob_c_ctx.mutability(), WasmEdgeMutability::WasmEdge_Mutability_Const);
    assert_eq!(glob_v_ctx.mutability(), WasmEdgeMutability::WasmEdge_Mutability_Var);

    // Global instance get value
    let val = glob_c_ctx.value();
    assert_eq!(WasmEdgeValueGetI64(val), 55555555555);
    let val = glob_v_ctx.value();
    assert_eq!(WasmEdgeValueGetI64(val), 66666666666);

    // Global instance set value: writing a constant global is kept silent
    let val = WasmEdgeValueGenI64(77777777777);
    glob_c_ctx.value_mut(val);
    let val = glob_c_ctx.value();
    assert_eq!(WasmEdgeValueGetI64(val), 55555555555);
    // a variable global takes the write
    let val = WasmEdgeValueGenI64(88888888888);
    glob_v_ctx.value_mut(val);
    let val = glob_v_ctx.value();
    assert_eq!(WasmEdgeValueGetI64(val), 88888888888);
    // a write under a mismatched type tag is kept silent too
    let val = WasmEdgeValueGenF32(12.345f32.to_bits());
    glob_v_ctx.value_mut(val);
    let val = glob_v_ctx.value();
    assert_eq!(WasmEdgeValueGetI64(val), 88888888888);
}

#[test]
fn test_instance_memory() {
    // Memory instance creation
    let limit = WasmEdgeLimit { HasMax: false, Min: 1, Max: 0 };
    let result = MemoryInstanceContext::create(limit);
    assert!(result.is_some());
    let _mem_ctx = result.unwrap();
    let limit = WasmEdgeLimit { HasMax: true, Min: 1, Max: 0 };
    let result = MemoryInstanceContext::create(limit);
    assert!(result.is_some());
    let mut mem_ctx = result.unwrap();

    // Memory instance set data
    let data = "test data\n".as_bytes();
    let result = mem_ctx.set_data(data, 100);
    assert!(result.is_ok());
    let result = mem_ctx.set_data(data, 100);
    assert!(result.is_ok());
    // out of bounds memory access
    let result = mem_ctx.set_data(data, 65536);
    assert!(result.is_err());

    // Memory instance get data
    let mut data_get = vec![0u8; 10];
    let result = mem_ctx.get_data(&mut data_get, 100);
    assert!(result.is_ok());
    assert_eq!(data, &data_get);
    let mut data_get: Vec<u8> = vec![];
    let result = mem_ctx.get_data(&mut data_get, 100);
    assert!(result.is_ok());
    // out of bounds memory access
    let mut data_get = vec![0u8; 10];
    let result = mem_ctx.get_data(&mut data_get, 65536);
    assert!(result.is_err());
}

#[test]
fn memory_pages_grow_within_the_limit() {
    let limit = WasmEdgeLimit { HasMax: true, Min: 1, Max: 2 };
    let mut mem = MemoryInstanceContext::create(limit).unwrap();
    assert_eq!(mem.page_size(), 1);
    assert!(mem.grow_page(1).is_ok());
    assert_eq!(mem.page_size(), 2);
    assert!(mem.grow_page(2).is_err());
    assert_eq!(mem.page_size(), 2);
    // bytes added by growth read back as zero
    let mut tail = vec![7u8; 4];
    assert!(mem.get_data(&mut tail, 65536).is_ok());
    assert_eq!(tail, vec![0u8; 4]);
}

#[test]
fn test_instance_table() {
    // Table instance creation
    let limit = WasmEdgeLimit { HasMax: false, Min: 10, Max: 0 };
    let result = TableInstanceContext::create(WasmEdgeRefType::WasmEdge_RefType_ExternRef, limit);
    assert!(result.is_some());
    let _tab_ctx = result.unwrap();

    let limit = WasmEdgeLimit { HasMax: true, Min: 10, Max: 0 };
    let result = TableInstanceContext::create(WasmEdgeRefType::WasmEdge_RefType_ExternRef, limit);
    assert!(result.is_some());
    let mut tab_ctx = result.unwrap();

    // Table instance get reference type
    assert_eq!(tab_ctx.get_ref_type(), WasmEdgeRefType::WasmEdge_RefType_ExternRef);

    // Table instance set data
    let addr: usize = 0x1000;
    let val = WasmEdgeValueGenExternRef(addr);
    let result = tab_ctx.set_data(val, 5);
    assert!(result.is_ok());
    // mismatched value type
    let tmp_val = WasmEdgeValueGenFuncRef(2);
    let result = tab_ctx.set_data(tmp_val, 6);
    assert!(result.is_err());

    // Table instance get data
    let mut val = WasmEdgeValueGenI32(0);
    let result = tab_ctx.get_data(&mut val, 5);
    assert!(result.is_ok());
    assert_eq!(WasmEdgeValueGetExternRef(val), addr);
    // out of bounds table access
    let result = tab_ctx.get_data(&mut val, 15);
    assert!(result.is_err());

    // Table instance get size and grow
    assert_eq!(tab_ctx.get_size(), 10);
    let result = tab_ctx.grow(8);
    assert!(result.is_ok());
    assert_eq!(tab_ctx.get_size(), 18);
    let result = tab_ctx.grow(8);
    assert!(result.is_ok());
    assert_eq!(tab_ctx.get_size(), 26);

    let addr2: usize = 0x2000;
    let val = WasmEdgeValueGenExternRef(addr2);
    let result = tab_ctx.set_data(val, 15);
    assert!(result.is_ok());
    let mut val = WasmEdgeValueGenI32(0);
    let result = tab_ctx.get_data(&mut val, 15);
    assert!(result.is_ok());
    assert_eq!(WasmEdgeValueGetExternRef(val), addr2);
}
