use vstd::prelude::*;

pub mod text;
pub mod fspath;
pub mod domain;
pub mod transport;
pub mod executor;
pub mod transfer;
pub mod order;
pub mod localfs;
pub mod sftp;
pub mod openssh;
pub mod app;
pub mod view;


verus! {

} // verus!
