use vstd::prelude::*;
use crate::metadata::Metadata;

verus! {

/// A decoded request body together with the metadata it arrived with.
pub struct Request<T> {
    metadata: Metadata,
    body: T,
}

impl<T> Request<T> {
    pub closed spec fn metadata_spec(&self) -> &Metadata {
        &self.metadata
    }

    pub closed spec fn body_spec(&self) -> &T {
        &self.body
    }

    pub fn new(metadata: Metadata, body: T) -> (r: Request<T>)
        ensures
            *r.metadata_spec() == metadata,
            *r.body_spec() == body,
    {
        Request { metadata, body }
    }

    pub fn metadata(&self) -> (r: &Metadata)
        ensures
            *r == *self.metadata_spec(),
    {
        &self.metadata
    }

    pub fn body(&self) -> (r: &T)
        ensures
            *r == *self.body_spec(),
    {
        &self.body
    }

    pub fn into_body(self) -> (r: T)
        ensures
            r == *self.body_spec(),
    {
        self.body
    }
}

} // verus!
