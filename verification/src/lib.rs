use vstd::prelude::*;

pub mod app;
pub mod audio;
pub mod capture;
pub mod message;
pub mod scan;
pub mod settings;
pub mod startup;
pub mod stream_loop;
pub mod text;
pub mod theme;
pub mod view;

verus! {

} // verus!
