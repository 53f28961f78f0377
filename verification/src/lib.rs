//! Worker node of a distributed fractal renderer: data model, descriptor
//! dispatch, wire framing and the worker's state machine.
//!
//! Floating-point quantities are carried as their IEEE-754 bit patterns
//! (`u64` for binary64, `u32` for binary32): the library moves them between
//! messages and onto the wire, and never computes with them.

pub mod cli;
pub mod complex;
pub mod compute;
pub mod connect;
pub mod connexion;
pub mod dispatcher;
pub mod error;
pub mod fragment_request;
pub mod fragment_result;
pub mod fragment_task;
pub mod fraktal;
pub mod fraktals;
pub mod json;
pub mod processor;
pub mod worker;

pub use complex::Complex;
pub use compute::{PixelData, PixelIntensity, Pixels, Point, Range, Resolution, U8Data};
pub use error::{Field, ProtocolError, ValidationError, WorkerError};
pub use fraktals::{
    FractalDescriptor, IteratedSinZDescriptor, JuliaDescriptor, MandelbrotDescriptor,
    NewtonRaphsonZ3Descriptor, NewtonRaphsonZ4Descriptor, NovaNewtonRaphsonZ3Descriptor,
    NovaNewtonRaphsonZ4Descriptor,
};
pub use worker::{Worker, WorkerAction, WorkerEvent, WorkerState};
pub use fragment_request::{FragmentRequest, FragmentRequestBuilder};
pub use fragment_result::{FragmentResult, FragmentResultBuilder};
pub use fragment_task::FragmentTask;
pub use dispatcher::dispatch_fractal;
pub use fraktal::{
    FractalJulia, FractalMandelbrot, Generator, IteratedSinZ, IterationBudget,
    NewtonRaphsonZ3Fractal,
};
pub use processor::process_task;
pub use connect::{parse_target, start_worker};
pub use cli::{classify_command, Command};
