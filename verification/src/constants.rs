use vstd::prelude::*;

verus! {

/// Variable data length constraints
pub const MAX_NAME_LEN: usize = 0x20;

pub const MAX_METADATA_LEN: usize = 0xff;

/// The symbol given to every record token.
pub const SRS_TICKER: &'static str = "SRS";

/// Where a token account keeps its owner.
pub const TOKEN_ACCOUNT_OWNER_OFFSET: usize = 0x20;

/// The first byte written into an account that has been closed, so that it
/// can never be initialized again.
pub const CLOSE_ACCOUNT_DISCRIMINATOR: u8 = 0xff;

// Token2022 Constants
pub const TOKEN_2022_PERMANENT_DELEGATE_LEN: usize = 0x20;

pub const TOKEN_2022_METADATA_POINTER_LEN: usize = 0x20;

// CloseAccount - 9
pub const TOKEN_2022_CLOSE_ACCOUNT_IX: u8 = 0x09;

// TransferChecked - 12
pub const TOKEN_2022_TRANSFER_CHECKED_IX: u8 = 0x0c;

// BurnChecked - 15
pub const TOKEN_2022_BURN_CHECKED_IX: u8 = 0x0f;

// InitializeMintCloseAuthority - 25
pub const TOKEN_2022_INITIALIZE_MINT_CLOSE_AUTHORITY_IX: u8 = 0x19;

// InitializePermanentDelegate - 35
pub const TOKEN_2022_INITIALIZE_PERMANENT_DELEGATE_IX: u8 = 0x23;

// MetadataPointerExtension - 39
pub const TOKEN_2022_METADATA_POINTER_EXTENSION_IX: u8 = 0x27;

pub const TOKEN_2022_METADATA_POINTER_INITIALIZE_IX: u8 = 0x00;

pub const TOKEN_2022_METADATA_POINTER_UPDATE_IX: u8 = 0x01;

} // verus!
