//! Helpers for tools that walk the heap.

pub mod heap_graph;
