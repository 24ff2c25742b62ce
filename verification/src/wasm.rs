//! Guest side of the three-function ABI a Wasm block exports: `alloc`,
//! `describe` and `on_input`. A block author implements [`WasmPlugin`];
//! the SDK moves bytes across linear memory and packs every result as
//! `(address << 32) | length` in one `i64`.

use vstd::prelude::*;

verus! {

/// Identity and declared kinds, returned from [`WasmPlugin::describe`].
#[derive(Debug, Clone)]
pub struct DescribeResponse {
    pub extension_id: String,
    pub version: String,
    pub kinds: Vec<KindDecl>,
}

/// One kind a Wasm block declares.
#[derive(Debug, Clone, Default)]
pub struct KindDecl {
    pub kind_id: String,
    pub display_name: Option<String>,
    pub inputs: Vec<String>,
    pub outputs: Vec<String>,
}

/// Envelope handed to [`WasmPlugin::on_input`].
#[derive(Debug, Clone)]
pub struct OnInputEnvelope<'a> {
    pub node_id: &'a str,
    pub kind_id: &'a str,
    pub port: &'a str,
    pub msg_json: &'a str,
}

/// One message a Wasm block emits.
#[derive(Debug, Clone)]
pub struct OutputMsg {
    pub port: String,
    pub msg_json: String,
}

/// Implemented on a zero-sized marker type by a Wasm block author.
pub trait WasmPlugin {
    /// `r` is an answer the plugin may give to the envelope `env`.
    /// An implementation that does not define it promises nothing.
    closed spec fn input_answer(env: OnInputEnvelope<'_>, r: Result<Vec<OutputMsg>, String>) -> bool {
        true
    }

    fn describe() -> DescribeResponse;

    fn on_input(env: OnInputEnvelope<'_>) -> (r: Result<Vec<OutputMsg>, String>)
        ensures
            Self::input_answer(env, r),
    ;
}

/// The word the host reads: `address` in the upper 32 bits, OR-ed with
/// `len`.
pub open spec fn packed(address: u64, len: u64) -> u64 {
    (address << 32u64) | len
}

/// Packs an address and a length into the `i64` the host reads.
pub fn pack(address: usize, len: usize) -> (r: i64)
    ensures
        r as u64 == packed(address as u64, len as u64),
{
    let a = address as u64;
    let l = len as u64;
    let w = (a << 32u64) | l;
    assert(w as i64 as u64 == w) by (bit_vector);
    w as i64
}

/// What the host recovers from a packed word: the address is the upper
/// 32 bits and the length the lower 32 bits, whenever both fit in 32 bits.
pub proof fn lemma_pack_roundtrip(address: u64, len: u64)
    requires
        address < 0x1_0000_0000,
        len < 0x1_0000_0000,
    ensures
        packed(address, len) >> 32u64 == address,
        packed(address, len) & 0xffff_ffffu64 == len,
{
    assert((((address << 32u64) | len) >> 32u64) == address) by (bit_vector)
        requires
            address < 0x1_0000_0000u64,
            len < 0x1_0000_0000u64,
    ;
    assert((((address << 32u64) | len) & 0xffff_ffffu64) == len) by (bit_vector)
        requires
            address < 0x1_0000_0000u64,
            len < 0x1_0000_0000u64,
    ;
}

/// Gives up ownership of `bytes` so that they stay in linear memory, and
/// returns the address of their first byte.
///
/// Calls `Vec::leak` and takes the address of the leaked slice. Where the
/// allocator placed the buffer is not stated; what std documents of every
/// slice is: its address is not null, and its bytes do not wrap around
/// the end of the address space.
#[verifier::external_body]
fn leak_address(bytes: Vec<u8>) -> (address: usize)
    ensures
        address != 0,
        address + bytes@.len() <= usize::MAX,
{
    bytes.leak().as_ptr() as usize
}

/// Leaks `bytes` into a stable place; the host reads them out of linear
/// memory and then drops the whole store. Returns the address and the
/// length.
pub fn leak_bytes(bytes: Vec<u8>) -> (r: (usize, usize))
    ensures
        r.1 == bytes@.len(),
        r.0 != 0,
        r.0 + r.1 <= usize::MAX,
{
    let len = bytes.len();
    let address = leak_address(bytes);
    (address, len)
}

/// The `alloc` the host calls before writing an envelope: reserves `size`
/// bytes and returns their address.
pub fn __sdk_alloc(size: i32) -> i32
    requires
        size >= 0,
{
    let v: Vec<u8> = Vec::with_capacity(size as usize);
    leak_address(v) as i32
}

/// The result of the `on_input` entry point once the envelope has been
/// decoded: a decoding failure is reported as a malformed envelope,
/// otherwise the plugin's answer to the decoded envelope.
pub fn envelope_outcome<P: WasmPlugin>(env: Result<OnInputEnvelope<'_>, String>) -> (r: Result<Vec<OutputMsg>, String>)
    ensures
        env matches Err(e) ==> (r matches Err(m) && m@ == "malformed envelope: "@ + e@),
        env matches Ok(e) ==> P::input_answer(e, r),
{
    match env {
        Err(e) => {
            let mut m = "malformed envelope: ".to_string();
            m.append(e.as_str());
            Err(m)
        },
        Ok(env) => P::on_input(env),
    }
}

} // verus!
