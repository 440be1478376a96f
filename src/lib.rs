//! A typed model of serverless workflow documents: workflows made of named, ordered tasks of
//! twelve kinds, with fluent builders that construct them and a codec that writes them to a
//! structured-document tree and reads them back, telling task kinds apart by the keys they hold.

use vstd::prelude::*;

pub mod duration;
pub mod entries;
pub mod value;
pub mod map;
pub mod auth;
pub mod timeout;
pub mod error;
pub mod event;
pub mod retry;
pub mod resource;
pub mod task;
pub mod workflow;
pub mod auth_builder;
pub mod timeout_builder;
pub mod task_builder;
pub mod workflow_builder;
pub mod codec;
pub mod duration_codec;
pub mod model_codec;
pub mod laws;

verus! {

} // verus!
