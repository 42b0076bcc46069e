use terminal_core::WasmPlugin;
use wasmtime::Engine;

#[test]
fn create_plugin() {
    let engine = Engine::default();
    let wasm: Vec<u8> = wat::parse_str("(module)").unwrap();
    let plugin = WasmPlugin::new(&engine, &wasm).unwrap();
    let mut store = wasmtime::Store::new(&engine, ());
    let _instance = plugin.instantiate(&mut store).unwrap();
}

#[test]
fn invalid_image_is_refused() {
    let engine = Engine::default();
    // The text format is not a binary module; compilation must fail and
    // create nothing.
    let err = match WasmPlugin::new(&engine, b"(module)") {
        Ok(_) => panic!("a text-format image compiled"),
        Err(e) => e,
    };
    assert!(!err.message.is_empty());
}
