//! Arithmetic over encrypted unsigned integers: the verified core of a
//! homomorphic-arithmetic service.
//!
//! The encryption scheme itself is an outside collaborator: a capability
//! that generates a key triple, encrypts plaintext operands, applies one
//! homomorphic operator, and decrypts the result. This crate holds what is
//! specific to the service and proves it: the plaintext meaning of every
//! operation at each width (`ops`), the key-bundle bootstrap protocol that
//! generates or reloads the three key artifacts as one atomic unit
//! (`store`), and the per-request discipline that installs the evaluation
//! context before any homomorphic operator may run (`service`).

pub mod ops;
pub mod service;
pub mod store;
