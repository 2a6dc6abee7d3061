//! Read-only view of a host data-bus event.
use vstd::prelude::*;

use crate::error::AdapterError;
use crate::snort;

verus! {

/// View of a host event, borrowed for the callback that received it.
#[derive(Debug)]
pub struct DataEvent<'a> {
    _event: &'a snort::DataEvent,
}

impl<'a> DataEvent<'a> {
    /// Builds a view of `event`; a null handle is refused.
    pub fn new(event: Option<&'a snort::DataEvent>) -> (r: Result<DataEvent<'a>, AdapterError>)
        ensures
            event is Some <==> r is Ok,
            event is None <==> r == Err::<DataEvent<'a>, AdapterError>(AdapterError::NullHandle),
    {
        match event {
            None => Err(AdapterError::NullHandle),
            Some(e) => Ok(DataEvent { _event: e }),
        }
    }
}

} // verus!
