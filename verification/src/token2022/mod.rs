pub mod constants;
pub mod instructions;
pub mod state;

pub use instructions::{
    BurnChecked, CloseAccount, FreezeAccount, InitializeAccount3, InitializeGroup, InitializeGroupMemberPointer, InitializeGroupPointer,
    InitializeMember, InitializeMetadata, InitializeMetadataPointer, InitializeMint2,
    InitializeMintCloseAuthority, InitializePermanentDelegate, MintToChecked, ThawAccount, TransferChecked, UpdateMetadata,
};
pub use state::{Mint, Token};
