//! Boundary layer between a foreign host process and a contract VM: owned byte
//! buffers, the error channel, opaque cache handles, argument decoding for the
//! exported entry points, gas reporting and the storage iterator adapter.
#![allow(non_camel_case_types)]

pub mod cache;
pub mod calls;
pub mod error;
pub mod ffi;
pub mod iterator;
pub mod memory;

pub use cache::{cache_t, release_cache, CacheRegistry};
pub use calls::{
    call_args, create_args, encrypted_seed_args, finish_call, finish_init_cache, get_code_args,
    init_cache_args, init_node_args, query_args, CallArgs, Checksum, QueryArgs, CHECKSUM_LEN,
};
pub use error::{clear_error, handle_c_error, handle_c_flag, recover, set_error, ArgName, Error};
pub use ffi::{FfiError, FfiErrorKind, GoResult};
pub use iterator::{
    gas_meter_t, iterator_t, next_item, GoIter, Iterator_vtable, NextDb, StorageIteratorItem,
};
pub use memory::{free_rust, Buffer, Ownership};
