//! Object-composition building blocks: recursive composites over files and
//! jobs, a factory registry, a builder, adapters and a shared connection value.

pub mod composite;
pub mod text;
pub mod bridge;
pub mod factory_method;
pub mod abstract_factory;
pub mod adapter;
pub mod builder;
pub mod singleton;
