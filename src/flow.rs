//! Read-only view of a host connection flow.
use vstd::prelude::*;
use vstd::string::*;

use crate::cstr::{c_text, conv_cstring};
use crate::error::AdapterError;
use crate::snort;

verus! {

/// View of a host flow, borrowed for the callback that received it.
#[derive(Debug)]
pub struct Flow<'a> {
    flow: &'a snort::Flow<'a>,
}

impl<'a> Flow<'a> {
    /// The host flow this view reads.
    pub closed spec fn host(&self) -> snort::Flow<'a> {
        *self.flow
    }

    /// Builds a view of `flow`; a null handle is refused.
    pub fn new(flow: Option<&'a snort::Flow<'a>>) -> (r: Result<Flow<'a>, AdapterError>)
        ensures
            flow is Some <==> r is Ok,
            flow is None <==> r == Err::<Flow<'a>, AdapterError>(AdapterError::NullHandle),
            r matches Ok(v) ==> flow is Some && v.host() == *flow.unwrap(),
    {
        match flow {
            None => Err(AdapterError::NullHandle),
            Some(f) => Ok(Flow { flow: f }),
        }
    }

    /// The service identified for the connection; fails when the host's
    /// text is not terminated UTF-8.
    pub fn get_service(&self) -> (r: Result<&'a str, AdapterError>)
        ensures
            match r {
                Ok(s) => c_text(self.host().service@) == Ok::<Seq<u8>, AdapterError>(s.spec_bytes()),
                Err(e) => c_text(self.host().service@) == Err::<Seq<u8>, AdapterError>(e),
            },
    {
        conv_cstring(self.flow.service)
    }
}

} // verus!
