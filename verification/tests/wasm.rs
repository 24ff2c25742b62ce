use blocks_sdk::wasm::{envelope_outcome, leak_bytes, pack, DescribeResponse, KindDecl, OnInputEnvelope, OutputMsg, WasmPlugin, __sdk_alloc};

#[test]
fn pack_puts_address_high_and_length_low() {
    assert_eq!(pack(0x10, 0x20), 0x0000_0010_0000_0020);
    let w = pack(0xdead_beef, 0x1234) as u64;
    assert_eq!(w >> 32, 0xdead_beef);
    assert_eq!(w & 0xffff_ffff, 0x1234);
    assert_eq!(pack(0, 0), 0);
}

#[test]
fn leak_bytes_reports_length() {
    let (_, len) = leak_bytes(vec![1, 2, 3, 4, 5]);
    assert_eq!(len, 5);
    let (_, len) = leak_bytes(Vec::new());
    assert_eq!(len, 0);
}

#[test]
fn alloc_returns_an_address() {
    let _ = __sdk_alloc(16);
    let _ = __sdk_alloc(0);
}

struct Doubler;
impl WasmPlugin for Doubler {
    fn describe() -> DescribeResponse {
        DescribeResponse {
            extension_id: "com.acme.wasm-demo".to_string(),
            version: "0.1.0".to_string(),
            kinds: vec![KindDecl { kind_id: "com.acme.wasm-demo.double".to_string(), ..Default::default() }],
        }
    }
    fn on_input(env: OnInputEnvelope<'_>) -> Result<Vec<OutputMsg>, String> {
        Ok(vec![OutputMsg { port: env.port.to_string(), msg_json: format!("{}{}", env.msg_json, env.msg_json) }])
    }
}

#[test]
fn envelope_outcome_reports_malformed_envelopes() {
    let r = envelope_outcome::<Doubler>(Err("eof".to_string()));
    assert_eq!(r.unwrap_err(), "malformed envelope: eof");
    let env = OnInputEnvelope { node_id: "n", kind_id: "k", port: "out", msg_json: "2" };
    let out = envelope_outcome::<Doubler>(Ok(env)).unwrap();
    assert_eq!(out.len(), 1);
    assert_eq!(out[0].port, "out");
    assert_eq!(out[0].msg_json, "22");
    assert_eq!(Doubler::describe().kinds[0].display_name, None);
}
