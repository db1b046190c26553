//! A static binding generator for classes whose methods are tagged for
//! exposure to a host object system. Given a parsed class body, it scans the
//! methods for export and rpc markers, classifies the remote-invocation mode,
//! validates and normalizes each exported signature, and assembles one
//! descriptor per exported, validated method together with the residual class
//! body with the consumed markers stripped.

pub mod assemble;
pub mod ast;
pub mod laws;
pub mod normalize;
pub mod rpc;
pub mod scan;
