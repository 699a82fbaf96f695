//! The two facts the library takes from the host and from the WebAssembly
//! toolchain: the host's page size and the size of a WebAssembly page.

use vstd::prelude::*;

verus! {

/// Calls `region::page::size`, which asks the operating system for its page
/// size. Nothing is claimed of the number that comes back.
#[verifier::external_body]
pub(crate) fn host_page_size() -> (size: usize) {
    region::page::size()
}

/// Reads `wasmtime_environ::WASM_PAGE_SIZE`, the byte size of one WebAssembly
/// page, which that crate defines as `0x10000`.
#[verifier::external_body]
pub(crate) fn wasm_page_size() -> (size: u64)
    ensures
        size == 65536,
{
    u64::from(wasmtime_environ::WASM_PAGE_SIZE)
}

} // verus!
