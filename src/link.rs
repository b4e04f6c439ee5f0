//! A typed reference: the locator of a resource of a known shape, followed
//! only when its value is needed.

use std::marker::PhantomData;
use vstd::prelude::*;

use crate::requests::{Request, BASE_URL};

verus! {

/// The locator of a resource that decodes as a `T`. The locator is a path
/// rooted at the service's host, as the service hands it out.
pub struct Link<T> {
    _phantom: PhantomData<T>,
    link: String,
}

impl<T> Link<T> {
    /// The locator held.
    pub closed spec fn locator(&self) -> Seq<char> {
        self.link@
    }

    /// A reference to the resource at `link`.
    pub fn new(link: String) -> (r: Self)
        ensures
            r.locator() == link@,
    {
        Link { _phantom: PhantomData, link }
    }

    /// The locator, as the service gave it.
    pub fn as_str(&self) -> (r: &str)
        ensures
            r@ == self.locator(),
    {
        self.link.as_str()
    }

    /// The request that fetches the referenced resource: the locator is
    /// taken as a path from the host, with no API prefix inserted.
    pub fn request(&self) -> (r: Request)
        ensures
            r.base_url@ == BASE_URL@,
            r.api@ == Seq::<char>::empty(),
            r.endpoint@ == self.locator(),
            r.params@.len() == 0,
    {
        proof {
            reveal_strlit("");
        }
        Request::new().with_api("").with_endpoint(self.link.as_str())
    }
}

}
