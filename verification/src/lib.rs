//! A client for the JSON-RPC interface of a Bitcoin Core node.

mod batch;
mod client;
mod error;
mod json;
pub mod node;
mod plan;
mod rpc;
pub mod simple_http;

pub use batch::Batch;
pub use client::{batch_params_json, check_response, params_json, reorder, Client};
pub use error::Error;
pub use plan::{reorder_plan, response_fault, version_is_two, Fault, ResponseMeta};
pub use rpc::{MethodName, Rpc};

pub use corepc_types;
pub use jsonrpc;
