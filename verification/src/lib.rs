//! A small inference runtime for TensorFlow Lite models: an arena allocator,
//! the kernels of the operators it supports and the graph that runs them.
pub mod micro_errors;
pub mod micro_allocator;
pub mod kernel;
pub mod micro_array;
pub mod micro_context;
pub mod micro_node;
pub mod micro_registration;
pub mod micro_op_resolver;
pub mod micro_graph;
pub mod micro_slice;
pub mod flatbuffer_vector;
pub mod tflite_model;
