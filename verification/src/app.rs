//! Applications.
//!
//! The kernel starts an application through a descriptor with an `init` and a
//! `main` entry. An application written against this trait is constructed
//! once, at init time, and run each time the kernel starts it; the kernel
//! never runs `main` of one application twice at the same time.
use vstd::prelude::*;

verus! {

/// An application of the kernel.
pub trait LkApp: Sized + Send + 'static {
    /// Constructs the application at init time. An application that returns
    /// `None` is not started.
    fn new() -> Option<Self>;

    /// Runs the application.
    fn main(&mut self);
}

} // verus!
