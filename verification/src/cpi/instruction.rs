//! Arguments of the instructions of the Pump.fun program, and their encoding.
use vstd::bytes::{spec_u32_to_le_bytes, spec_u64_to_le_bytes, u32_to_le_bytes, u64_to_le_bytes};
use vstd::prelude::*;
use vstd::utf8::encode_utf8;

use crate::pubkey::Pubkey;

verus! {

/// Tag of `create`: the first bytes of the hash of `global:create`.
pub const CREATE_DISCRIMINATOR: [u8; 8] = [24, 30, 200, 40, 5, 28, 7, 119];

/// Tag of `buy`: the first bytes of the hash of `global:buy`.
pub const BUY_DISCRIMINATOR: [u8; 8] = [102, 6, 61, 18, 1, 218, 235, 234];

/// Tag of `sell`: the first bytes of the hash of `global:sell`.
pub const SELL_DISCRIMINATOR: [u8; 8] = [51, 230, 133, 164, 1, 127, 131, 173];

/// Arguments of `create`
#[derive(Clone, Debug)]
pub struct Create {
    /// Name of the token.
    pub _name: String,
    /// Ticker symbol of the token.
    pub _symbol: String,
    /// Where the token's metadata is found.
    pub _uri: String,
    /// Who creates the token.
    pub _creator: Pubkey,
}

/// The texts and bytes of a [`Create`].
pub struct CreateView {
    pub name: Seq<char>,
    pub symbol: Seq<char>,
    pub uri: Seq<char>,
    pub creator: Seq<u8>,
}

impl View for Create {
    type V = CreateView;

    open spec fn view(&self) -> CreateView {
        CreateView {
            name: self._name@,
            symbol: self._symbol@,
            uri: self._uri@,
            creator: self._creator@,
        }
    }
}

/// Arguments of `buy`
#[derive(Clone, Copy, Debug, PartialEq, Eq)]
pub struct Buy {
    /// Tokens to buy.
    pub _amount: u64,
    /// Lamports that the purchase may cost at most.
    pub _max_sol_cost: u64,
}

/// Arguments of `sell`
#[derive(Clone, Copy, Debug, PartialEq, Eq)]
pub struct Sell {
    /// Tokens to sell.
    pub _amount: u64,
    /// Lamports that the sale must bring at least.
    pub _min_sol_output: u64,
}

/// Whether the length of a text fits in the four bytes that its encoding has for it.
pub open spec fn encodable(text: Seq<char>) -> bool {
    encode_utf8(text).len() <= u32::MAX
}

/// The encoding of a text: its length in bytes, then its bytes.
pub open spec fn text_bytes(text: Seq<char>) -> Seq<u8> {
    spec_u32_to_le_bytes(encode_utf8(text).len() as u32) + encode_utf8(text)
}

impl CreateView {
    /// Whether every text can be encoded.
    pub open spec fn encodable(self) -> bool {
        encodable(self.name) && encodable(self.symbol) && encodable(self.uri)
    }

    /// The bytes that the program reads.
    pub open spec fn data(self) -> Seq<u8> {
        CREATE_DISCRIMINATOR@ + text_bytes(self.name) + text_bytes(self.symbol) + text_bytes(
            self.uri,
        ) + self.creator
    }
}

/// Appends bytes.
fn append(data: &mut Vec<u8>, bytes: &[u8])
    ensures
        final(data)@ == old(data)@ + bytes@,
{
    let ghost before = data@;
    let mut i: usize = 0;
    while i < bytes.len()
        invariant
            i <= bytes.len(),
            data@ == before + bytes@.take(i as int),
        decreases bytes.len() - i,
    {
        data.push(bytes[i]);
        i = i + 1;
        assert(data@ =~= before + bytes@.take(i as int));
    }
    assert(bytes@.take(i as int) =~= bytes@);
}

/// Appends the encoding of a text.
fn append_text(data: &mut Vec<u8>, text: &String) -> (encoded: bool)
    ensures
        encoded == encodable(text@),
        encoded ==> final(data)@ == old(data)@ + text_bytes(text@),
{
    let bytes = text.as_str().as_bytes();
    if bytes.len() > u32::MAX as usize {
        return false;
    }
    let ghost before = data@;
    let length = u32_to_le_bytes(bytes.len() as u32);
    append(data, length.as_slice());
    append(data, bytes);
    assert(data@ =~= before + text_bytes(text@));
    true
}

impl Create {
    /// The bytes that the program reads, or `None` where a text is too long to be encoded.
    pub fn data(&self) -> (data: Option<Vec<u8>>)
        ensures
            data is Some <==> self@.encodable(),
            data matches Some(bytes) ==> bytes@ == self@.data(),
    {
        let mut data: Vec<u8> = Vec::new();
        append(&mut data, &CREATE_DISCRIMINATOR);
        if !append_text(&mut data, &self._name) {
            return None;
        }
        if !append_text(&mut data, &self._symbol) {
            return None;
        }
        if !append_text(&mut data, &self._uri) {
            return None;
        }
        append(&mut data, &self._creator.bytes);
        assert(data@ =~= self@.data());
        Some(data)
    }
}

/// A tag and two numbers, each as its little-endian bytes.
pub open spec fn two_numbers(tag: Seq<u8>, first: u64, second: u64) -> Seq<u8> {
    tag + spec_u64_to_le_bytes(first) + spec_u64_to_le_bytes(second)
}

impl Buy {
    /// The bytes that the program reads.
    pub fn data(&self) -> (data: Vec<u8>)
        ensures
            data@ == two_numbers(BUY_DISCRIMINATOR@, self._amount, self._max_sol_cost),
    {
        let mut data: Vec<u8> = Vec::new();
        append(&mut data, &BUY_DISCRIMINATOR);
        append(&mut data, u64_to_le_bytes(self._amount).as_slice());
        append(&mut data, u64_to_le_bytes(self._max_sol_cost).as_slice());
        assert(data@ =~= two_numbers(BUY_DISCRIMINATOR@, self._amount, self._max_sol_cost));
        data
    }
}

impl Sell {
    /// The bytes that the program reads.
    pub fn data(&self) -> (data: Vec<u8>)
        ensures
            data@ == two_numbers(SELL_DISCRIMINATOR@, self._amount, self._min_sol_output),
    {
        let mut data: Vec<u8> = Vec::new();
        append(&mut data, &SELL_DISCRIMINATOR);
        append(&mut data, u64_to_le_bytes(self._amount).as_slice());
        append(&mut data, u64_to_le_bytes(self._min_sol_output).as_slice());
        assert(data@ =~= two_numbers(SELL_DISCRIMINATOR@, self._amount, self._min_sol_output));
        data
    }
}

} // verus!
