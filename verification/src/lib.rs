use vstd::prelude::*;

pub mod account;
pub mod constants;
pub mod cpi;
pub mod error;
pub mod instructions;
pub mod laws;
pub mod processor;
pub mod state;
pub mod token2022;
pub mod utils;

use crate::account::Pubkey;

verus! {

// srsWjm76StJucL7atFyPSdXFaVLNPFqEt1uFEDPrZsn
pub const ID: Pubkey = [
    0x0d, 0x07, 0x6d, 0xfe, 0xdc, 0x66, 0x80, 0x9f, 0xb0, 0x4b, 0x17, 0xdd, 0x2c, 0xef, 0xe2, 0xe6,
    0xf2, 0x65, 0x86, 0x5d, 0xbd, 0x35, 0x41, 0x2d, 0xb9, 0x05, 0xe9, 0xcb, 0x33, 0x00, 0x60, 0xc9,
];

} // verus!
