//! Verified core of an asynchronous C API over the MongoDB Rust driver.

pub mod text;
pub mod error;
pub mod bson;
pub mod private;
pub mod future;
pub mod runtime;
pub mod read_concern;
pub mod write_concern;
pub mod server_api;
pub mod tls_options;
pub mod read_preference;
pub mod string;
pub mod cursor_type;
pub mod credential;
pub mod server_info;
pub mod client_options;
pub mod headers;
pub mod client;
pub mod aggregate_options;
pub mod count_options;
pub mod delete_options;
pub mod replace_options;
pub mod update_options;
pub mod insert_one_options;
pub mod insert_many_options;
pub mod estimated_document_count_options;
pub mod list_collections_options;
pub mod list_databases_options;
pub mod collection_options;
pub mod database_options;
pub mod drop_collection_options;
pub mod drop_database_options;
pub mod run_command_options;
pub mod run_cursor_command_options;
pub mod session_options;
pub mod transaction_options;
pub mod find_options;
pub mod find_one_options;
pub mod create_collection_options;
pub mod document;
pub mod collection;
pub mod sanity_check;
