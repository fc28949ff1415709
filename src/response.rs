use vstd::prelude::*;
use crate::metadata::Metadata;

verus! {

/// A response body together with the metadata it is sent with.
pub struct Response<T> {
    metadata: Metadata,
    body: T,
}

impl<T> Response<T> {
    pub closed spec fn metadata_spec(&self) -> &Metadata {
        &self.metadata
    }

    pub closed spec fn body_spec(&self) -> &T {
        &self.body
    }

    pub fn new(metadata: Metadata, body: T) -> (r: Response<T>)
        ensures
            *r.metadata_spec() == metadata,
            *r.body_spec() == body,
    {
        Response { metadata, body }
    }

    pub fn metadata(&self) -> (r: &Metadata)
        ensures
            *r == *self.metadata_spec(),
    {
        &self.metadata
    }

    pub fn body(&self) -> (r: &T)
        ensures
            *r == *self.body_spec(),
    {
        &self.body
    }

    pub fn into_body(self) -> (r: T)
        ensures
            r == *self.body_spec(),
    {
        self.body
    }
}

} // verus!
