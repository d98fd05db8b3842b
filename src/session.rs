use vstd::prelude::*;

verus! {

/// A shared resource that at most one session may hold at a time.
#[derive(Clone, Copy, Debug, PartialEq, Eq, Structural)]
pub enum Resource {
    Generation,
    Transcription,
}

/// Why a session could not be acquired.
#[derive(Clone, Copy, Debug, PartialEq, Eq, Structural)]
pub enum AcquireError {
    /// A session on the resource is already active; the request is rejected,
    /// not queued.
    Busy,
}

/// Proof of exclusive access to one resource for one logical operation.
#[derive(Clone, Copy, Debug, PartialEq, Eq, Structural)]
pub struct SessionHandle {
    pub resource: Resource,
    pub token: u64,
}

/// The token after `t`, wrapping to zero.
pub open spec fn next_token(t: u64) -> u64 {
    if t == u64::MAX {
        0
    } else {
        (t + 1) as u64
    }
}

/// Grants single-flight ownership of the generation path and of the
/// transcription path, independently.
#[derive(Clone, Copy, Debug, PartialEq, Eq, Structural)]
pub struct SessionController {
    pub generation: Option<u64>,
    pub transcription: Option<u64>,
    pub next: u64,
}

impl SessionController {
    /// The token of the session active on `r`, if any.
    pub open spec fn active(&self, r: Resource) -> Option<u64> {
        match r {
            Resource::Generation => self.generation,
            Resource::Transcription => self.transcription,
        }
    }

    /// No session is active.
    pub fn new() -> (r: Self)
        ensures
            r.active(Resource::Generation) is None,
            r.active(Resource::Transcription) is None,
    {
        SessionController { generation: None, transcription: None, next: 0 }
    }

    /// Whether a session on `resource` is active.
    pub fn is_active(&self, resource: Resource) -> (r: bool)
        ensures
            r == self.active(resource) is Some,
    {
        match resource {
            Resource::Generation => self.generation.is_some(),
            Resource::Transcription => self.transcription.is_some(),
        }
    }

    /// Starts a session on `resource`, or fails at once with `Busy` when one
    /// is active there, leaving the controller as it was.
    pub fn acquire(&mut self, resource: Resource) -> (r: Result<SessionHandle, AcquireError>)
        ensures
            old(self).active(resource) is Some <==> r is Err,
            r is Err ==> r == Err::<SessionHandle, AcquireError>(AcquireError::Busy) && *final(self) == *old(self),
            r matches Ok(h) ==> {
                &&& h == (SessionHandle { resource, token: old(self).next })
                &&& final(self).active(resource) == Some(old(self).next)
                &&& final(self).next == next_token(old(self).next)
            },
            forall|o: Resource| o != resource ==> final(self).active(o) == old(self).active(o),
    {
        if self.is_active(resource) {
            return Err(AcquireError::Busy);
        }
        let token = self.next;
        match resource {
            Resource::Generation => self.generation = Some(token),
            Resource::Transcription => self.transcription = Some(token),
        }
        self.next = if token == u64::MAX {
            0
        } else {
            token + 1
        };
        Ok(SessionHandle { resource, token })
    }

    /// Ends the session that `handle` stands for. Releasing a handle whose
    /// session is no longer active changes nothing, so a release may be
    /// repeated.
    pub fn release(&mut self, handle: &SessionHandle)
        ensures
            old(self).active(handle.resource) == Some(handle.token) ==> final(self).active(handle.resource) is None,
            old(self).active(handle.resource) != Some(handle.token) ==> *final(self) == *old(self),
            forall|o: Resource| o != handle.resource ==> final(self).active(o) == old(self).active(o),
            final(self).next == old(self).next,
    {
        match handle.resource {
            Resource::Generation => {
                if self.generation == Some(handle.token) {
                    self.generation = None;
                }
            },
            Resource::Transcription => {
                if self.transcription == Some(handle.token) {
                    self.transcription = None;
                }
            },
        }
    }
}

} // verus!
