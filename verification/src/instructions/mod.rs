pub mod burn_tokenized_record;
pub mod create_class;
pub mod create_record;
pub mod delete_record;
pub mod freeze_class;
pub mod freeze_record;
pub mod freeze_tokenized_record;
pub mod mint_tokenized_record;
pub mod record_authority_delegate;
pub mod transfer_record;
pub mod transfer_tokenized_record;
pub mod update_class;
pub mod update_record;

pub use burn_tokenized_record::{BurnTokenizedRecord, BurnTokenizedRecordAccounts};
pub use create_class::{CreateClass, CreateClassAccounts};
pub use create_record::{CreateRecord, CreateRecordAccounts};
pub use delete_record::{DeleteRecord, DeleteRecordAccounts};
pub use freeze_class::{FreezeClass, FreezeClassAccounts};
pub use freeze_record::{FreezeRecord, FreezeRecordAccounts};
pub use freeze_tokenized_record::{FreezeTokenizedRecord, FreezeTokenizedRecordAccounts};
pub use mint_tokenized_record::{MintTokenizedRecord, MintTokenizedRecordAccounts};
pub use record_authority_delegate::{
    CreateRecordAuthorityDelegate, CreateRecordAuthorityDelegateAccounts,
    DeleteRecordAuthorityDelegate, DeleteRecordAuthorityDelegateAccounts,
    UpdateRecordAuthorityDelegate, UpdateRecordAuthorityDelegateAccounts,
};
pub use transfer_record::{TransferRecord, TransferRecordAccounts};
pub use transfer_tokenized_record::{TransferTokenizedRecord, TransferTokenizedRecordAccounts};
pub use update_class::{UpdateClassAccounts, UpdateClassAuthority, UpdateClassMetadata};
pub use update_record::{UpdateRecordAccounts, UpdateRecordData, UpdateRecordExpiry};
