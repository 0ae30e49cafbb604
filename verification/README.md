# berrylite

A small inference runtime for TensorFlow Lite models, verified with Verus.

- `src/micro_allocator.rs`: a bump allocator over an arena of addresses.
- `src/kernel/`: the operators (fully connected, 2-D max pooling), their fused
  activations and padding computation.
- `src/micro_graph.rs`: building a subgraph's tensors and nodes from a model and running
  its operators in order.
- `src/tflite_model.rs`, `src/flatbuffer_vector.rs`: the parts of a model the runtime
  reads; index lists stay flatbuffer vectors, read through `flatbuffers`.

Tensor elements are `i32`. Every public function states what it returns and changes in
its contract; the proof functions state the laws that hold across calls.
