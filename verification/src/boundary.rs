//! Host-boundary buffer values: the text and byte buffers exchanged with
//! the embedding environment.
//!
//! The engine side of the boundary works with owned, length-checked
//! values; the embedding's pointer shim (allocation handles, raw
//! addresses) lives outside the verified library and converts from and to
//! these.

use vstd::prelude::*;

use vstd::utf8::encode_utf8;

use crate::text::push_char;

verus! {

/// An owned text buffer exchanged with the host: a UTF-8 string.
#[derive(Debug)]
pub struct WasmStr {
    s: String,
}

impl View for WasmStr {
    type V = Seq<char>;

    closed spec fn view(&self) -> Seq<char> {
        self.s@
    }
}

impl WasmStr {
    /// A buffer of `size` NUL characters, for the host to fill.
    pub fn new(size: usize) -> (r: Self)
        ensures
            r@.len() == size,
            forall|i: int| 0 <= i < size ==> r@[i] == '\0',
    {
        let mut s = String::new();
        let mut i: usize = 0;
        while i < size
            invariant
                i <= size,
                s@.len() == i,
                forall|k: int| 0 <= k < i ==> s@[k] == '\0',
            decreases size - i,
        {
            push_char(&mut s, '\0');
            i = i + 1;
        }
        WasmStr { s }
    }

    /// The buffer's text.
    pub fn as_str(&self) -> (r: &str)
        ensures
            r@ == self@,
    {
        self.s.as_str()
    }

    /// Consumes the buffer into its text.
    pub fn into_string(self) -> (r: String)
        ensures
            r@ == self@,
    {
        self.s
    }
}

impl From<String> for WasmStr {
    fn from(s: String) -> (r: Self)
        ensures
            r@ == s@,
    {
        WasmStr { s }
    }
}

impl vstd::std_specs::convert::FromSpecImpl<String> for WasmStr {
    open spec fn obeys_from_spec() -> bool {
        true
    }

    closed spec fn from_spec(s: String) -> Self {
        WasmStr { s }
    }
}

/// An owned byte buffer exchanged with the host.
#[derive(Debug)]
pub struct WasmBytes {
    b: Vec<u8>,
}

impl View for WasmBytes {
    type V = Seq<u8>;

    closed spec fn view(&self) -> Seq<u8> {
        self.b@
    }
}

impl WasmBytes {
    /// A buffer of `size` zero bytes, for the host to fill.
    pub fn new(size: usize) -> (r: Self)
        ensures
            r@.len() == size,
            forall|i: int| 0 <= i < size ==> r@[i] == 0,
    {
        let mut b: Vec<u8> = Vec::new();
        let mut i: usize = 0;
        while i < size
            invariant
                i <= size,
                b@.len() == i,
                forall|k: int| 0 <= k < i ==> b@[k] == 0,
            decreases size - i,
        {
            b.push(0);
            i = i + 1;
        }
        WasmBytes { b }
    }

    /// The buffer's bytes.
    pub fn as_slice(&self) -> (r: &[u8])
        ensures
            r@ == self@,
    {
        self.b.as_slice()
    }

    /// Consumes the buffer into its bytes.
    pub fn into_vec(self) -> (r: Vec<u8>)
        ensures
            r@ == self@,
    {
        self.b
    }
}

impl From<Vec<u8>> for WasmBytes {
    fn from(b: Vec<u8>) -> (r: Self)
        ensures
            r@ == b@,
    {
        WasmBytes { b }
    }
}

impl vstd::std_specs::convert::FromSpecImpl<Vec<u8>> for WasmBytes {
    open spec fn obeys_from_spec() -> bool {
        true
    }

    closed spec fn from_spec(b: Vec<u8>) -> Self {
        WasmBytes { b }
    }
}

/// A fresh text buffer of `size` NUL characters; `size` must not be
/// negative.
pub fn wasm_str_new(size: i32) -> (r: WasmStr)
    requires
        size >= 0,
    ensures
        r@.len() == size,
        forall|i: int| 0 <= i < size ==> r@[i] == '\0',
{
    WasmStr::new(size as usize)
}

/// The buffer's length in UTF-8 bytes; the buffer must be small enough
/// for the result to fit.
pub fn wasm_str_len(s: WasmStr) -> (r: i32)
    requires
        encode_utf8(s@).len() <= i32::MAX,
    ensures
        r == encode_utf8(s@).len(),
{
    s.as_str().len() as i32
}

/// A fresh byte buffer of `size` zero bytes; `size` must not be negative.
pub fn wasm_bytes_new(size: i32) -> (r: WasmBytes)
    requires
        size >= 0,
    ensures
        r@.len() == size,
        forall|i: int| 0 <= i < size ==> r@[i] == 0,
{
    WasmBytes::new(size as usize)
}

/// The buffer's length in bytes; the buffer must be small enough for the
/// result to fit.
pub fn wasm_bytes_len(s: WasmBytes) -> (r: i32)
    requires
        s@.len() <= i32::MAX,
    ensures
        r == s@.len(),
{
    s.as_slice().len() as i32
}

} // verus!
