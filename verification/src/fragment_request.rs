//! The request by which a worker announces itself and asks for work.

use vstd::prelude::*;
use crate::error::{Field, ValidationError};

verus! {

/// A worker's request for work: its name and the most it will take on.
#[derive(Debug)]
pub struct FragmentRequest {
    worker_name: String,
    maximal_work_load: u32,
}

/// What a request says.
pub struct FragmentRequestView {
    /// The worker's name.
    pub worker_name: Seq<char>,
    /// The most work the worker will take on.
    pub maximal_work_load: u32,
}

/// Collects the fields of a request one by one.
pub struct FragmentRequestBuilder {
    worker_name: Option<String>,
    max_work_load: Option<u32>,
}

/// What a builder has collected so far.
pub struct FragmentRequestBuilderView {
    /// The worker's name, if it was set.
    pub worker_name: Option<Seq<char>>,
    /// The maximal workload, if it was set.
    pub max_work_load: Option<u32>,
}

impl View for FragmentRequest {
    type V = FragmentRequestView;

    closed spec fn view(&self) -> FragmentRequestView {
        FragmentRequestView {
            worker_name: self.worker_name@,
            maximal_work_load: self.maximal_work_load,
        }
    }
}

impl View for FragmentRequestBuilder {
    type V = FragmentRequestBuilderView;

    closed spec fn view(&self) -> FragmentRequestBuilderView {
        FragmentRequestBuilderView {
            worker_name: match self.worker_name {
                Some(name) => Some(name@),
                None => None,
            },
            max_work_load: self.max_work_load,
        }
    }
}

/// What `build` makes of what a builder has collected: the request if both
/// fields are set, else the first missing field, the name before the
/// workload.
pub open spec fn built_request(b: FragmentRequestBuilderView) -> Result<
    FragmentRequestView,
    ValidationError,
> {
    match (b.worker_name, b.max_work_load) {
        (None, _) => Err(ValidationError::Missing(Field::WorkerName)),
        (Some(_), None) => Err(ValidationError::Missing(Field::MaxWorkLoad)),
        (Some(name), Some(load)) => Ok(
            (FragmentRequestView { worker_name: name, maximal_work_load: load }),
        ),
    }
}

impl FragmentRequest {
    /// A request with the given name and workload.
    pub fn new(worker_name: String, maximal_work_load: u32) -> (r: FragmentRequest)
        ensures
            r@.worker_name == worker_name@,
            r@.maximal_work_load == maximal_work_load,
    {
        FragmentRequest { worker_name, maximal_work_load }
    }

    /// A builder with no field set.
    pub fn builder() -> (b: FragmentRequestBuilder)
        ensures
            b@.worker_name.is_none(),
            b@.max_work_load.is_none(),
    {
        FragmentRequestBuilder { worker_name: None, max_work_load: None }
    }

    /// The worker's name.
    pub fn worker_name(&self) -> (name: &str)
        ensures
            name@ == self@.worker_name,
    {
        self.worker_name.as_str()
    }

    /// The most work the worker will take on.
    pub fn maximal_work_load(&self) -> (load: u32)
        ensures
            load == self@.maximal_work_load,
    {
        self.maximal_work_load
    }
}

impl FragmentRequestBuilder {
    /// Sets the worker's name.
    pub fn with_worker_name(self, worker_name: String) -> (b: FragmentRequestBuilder)
        ensures
            b@.worker_name == Some(worker_name@),
            b@.max_work_load == self@.max_work_load,
    {
        FragmentRequestBuilder { worker_name: Some(worker_name), max_work_load: self.max_work_load }
    }

    /// Sets the maximal workload.
    pub fn with_max_work_load(self, max_work_load: u32) -> (b: FragmentRequestBuilder)
        ensures
            b@.worker_name == self@.worker_name,
            b@.max_work_load == Some(max_work_load),
    {
        FragmentRequestBuilder { worker_name: self.worker_name, max_work_load: Some(max_work_load) }
    }

    /// Builds the request if both fields are set, and names the first
    /// missing one otherwise.
    pub fn build(self) -> (r: Result<FragmentRequest, ValidationError>)
        ensures
            match (r, built_request(self@)) {
                (Ok(req), Ok(want)) => req@ == want,
                (Err(e), Err(want)) => e == want,
                _ => false,
            },
    {
        match self.worker_name {
            None => Err(ValidationError::Missing(Field::WorkerName)),
            Some(worker_name) => match self.max_work_load {
                None => Err(ValidationError::Missing(Field::MaxWorkLoad)),
                Some(load) => Ok(FragmentRequest::new(worker_name, load)),
            },
        }
    }
}

} // verus!
