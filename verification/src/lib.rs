//! A native bridge that lets a managed caller open, query and close an
//! embedded SQL engine over interchangeable storage backends.
//!
//! The verified core covers the handle lifecycle (`registry`), the
//! execution core that serializes statement execution behind an
//! exclusive per-instance lock (`glue`), the result projector that
//! turns executed payloads into the serialized result text (`payload`,
//! `json`), and the callback bridge's delivery decision (`callback`).

pub mod callback;
pub mod error;
pub mod glue;
pub mod json;
pub mod payload;
pub mod registry;
pub mod storages;
