//! Composition primitives for request-processing pipelines: a stack that
//! accumulates layers around one owned value, an un-applied composition of
//! layers, wrappers that hold service factories, and the adapter that applies
//! a layer to the eventual output of a factory.
pub mod layers;
pub mod make_service;
pub mod new_service;
pub mod on_service;
pub mod stack;

pub use layers::Layers;
pub use make_service::MakeStack;
pub use new_service::{NewService, NewServiceStack};
pub use on_service::{OnService, OnServiceLayer, OnServiceTask, Production, Progress};
pub use stack::Stack;
