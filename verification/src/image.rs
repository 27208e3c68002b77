//! Construction of the firmware image's vector table from a list of
//! registration requests.
//!
//! Every request is verified on its own, and no two requests may name the
//! same vector: the image holds exactly one interrupt service routine per
//! vector that is named. A list that fails either check yields no image.

use vstd::prelude::*;
use crate::binding::{
    consistent,
    first_mismatch,
    lemma_first_mismatch,
    register_interrupt,
    Binding,
    BindingMismatch,
    BindingToken,
    RegistrationRequest,
};
use crate::hal::Driver;
use crate::pac::Interrupt;

verus! {

/// Why a list of registration requests yields no image.
#[derive(Clone, Copy, Debug, PartialEq, Eq, Structural)]
pub enum BuildError {
    /// The request at position `request` names a driver that declares
    /// another vector than the request's.
    Mismatch { request: usize, mismatch: BindingMismatch },
    /// The request at position `request` names a vector that an earlier
    /// request has bound already.
    Conflict { request: usize, vector: Interrupt },
}

impl BuildError {
    /// The position of the offending request in the list.
    pub open spec fn request_spec(&self) -> usize {
        match *self {
            BuildError::Mismatch { request, .. } => request,
            BuildError::Conflict { request, .. } => request,
        }
    }

    /// The position of the offending request in the list.
    #[verifier::when_used_as_spec(request_spec)]
    pub fn request(&self) -> (position: usize)
        ensures
            position == self.request_spec(),
    {
        match self {
            BuildError::Mismatch { request, .. } => *request,
            BuildError::Conflict { request, .. } => *request,
        }
    }
}

/// What the request at position `k` binds once it is accepted.
pub open spec fn requested(requests: Seq<RegistrationRequest>, k: int) -> Binding {
    Binding { vector: requests[k].vector, handlers: requests[k].drivers@, priority: None }
}

/// Whether a request before position `k` names `vector`.
pub open spec fn bound_before(requests: Seq<RegistrationRequest>, k: int, vector: Interrupt) -> bool {
    exists|j: int| 0 <= j < k && (#[trigger] requests[j]).vector == vector
}

/// Why the request at position `k` is rejected, given the requests before it:
/// for its first mismatching driver, else for a vector that is bound already.
pub open spec fn rejection(requests: Seq<RegistrationRequest>, k: int) -> Option<BuildError> {
    let vector = requests[k].vector;
    match first_mismatch(vector, requests[k].drivers@) {
        Some(driver) => Some(
            BuildError::Mismatch {
                request: k as usize,
                mismatch: BindingMismatch { driver, expected: vector, declared: driver.vector() },
            },
        ),
        None => if bound_before(requests, k, vector) {
            Some(BuildError::Conflict { request: k as usize, vector })
        } else {
            None
        },
    }
}

/// Whether none of the first `n` requests is rejected.
pub open spec fn accepted(requests: Seq<RegistrationRequest>, n: int) -> bool {
    forall|k: int| 0 <= k < n ==> #[trigger] rejection(requests, k) is None
}

/// The routine that `image` holds for `vector`.
pub open spec fn routine(image: Seq<Binding>, vector: Interrupt) -> Option<Binding> {
    if exists|k: int| 0 <= k < image.len() && (#[trigger] image[k]).vector == vector {
        Some(image[choose|k: int| 0 <= k < image.len() && (#[trigger] image[k]).vector == vector])
    } else {
        None
    }
}

/// Whether no two routines of `image` serve the same vector.
pub open spec fn one_routine_per_vector(image: Seq<Binding>) -> bool {
    forall|i: int, j: int|
        0 <= i < image.len() && 0 <= j < image.len() && (#[trigger] image[i]).vector == (
        #[trigger] image[j]).vector ==> i == j
}

/// A list of requests is accepted exactly when every request is consistent
/// with its own vector and no two requests name the same vector. The image
/// then holds one routine for each request, and no two routines serve the
/// same vector.
pub proof fn lemma_accepted(requests: Seq<RegistrationRequest>)
    ensures
        accepted(requests, requests.len() as int) <==> (forall|k: int|
            0 <= k < requests.len() ==> consistent(
                (#[trigger] requests[k]).vector,
                requests[k].drivers@,
            )) && (forall|j: int, k: int|
            0 <= j < k < requests.len() ==> (#[trigger] requests[j]).vector != (
            #[trigger] requests[k]).vector),
        accepted(requests, requests.len() as int) ==> one_routine_per_vector(
            Seq::new(requests.len(), |k: int| requested(requests, k)),
        ),
{
    let n = requests.len() as int;
    assert forall|k: int| 0 <= k < n implies (#[trigger] rejection(requests, k) is None <==> (
    consistent(requests[k].vector, requests[k].drivers@) && !bound_before(
        requests,
        k,
        requests[k].vector,
    ))) by {
        lemma_first_mismatch(requests[k].vector, requests[k].drivers@);
    }
    if accepted(requests, n) {
        assert forall|k: int| 0 <= k < n implies consistent(
            (#[trigger] requests[k]).vector,
            requests[k].drivers@,
        ) by {
            assert(rejection(requests, k) is None);
        }
        assert forall|j: int, k: int| 0 <= j < k < n implies (#[trigger] requests[j]).vector != (
        #[trigger] requests[k]).vector by {
            assert(rejection(requests, k) is None);
        }
    }
}

/// An accepted list yields exactly one routine for each vector that a
/// request names, the routine of that request, and none for any other vector.
pub proof fn lemma_one_routine_per_named_vector(
    requests: Seq<RegistrationRequest>,
    vector: Interrupt,
)
    requires
        accepted(requests, requests.len() as int),
    ensures
        match routine(Seq::new(requests.len(), |k: int| requested(requests, k)), vector) {
            Some(binding) => exists|k: int|
                0 <= k < requests.len() && (#[trigger] requests[k]).vector == vector && binding
                    == requested(requests, k),
            None => forall|k: int|
                0 <= k < requests.len() ==> (#[trigger] requests[k]).vector != vector,
        },
{
    let image = Seq::new(requests.len(), |k: int| requested(requests, k));
    if exists|k: int| 0 <= k < image.len() && (#[trigger] image[k]).vector == vector {
        let k = choose|k: int| 0 <= k < image.len() && (#[trigger] image[k]).vector == vector;
        assert(requests[k].vector == vector);
    } else {
        assert forall|k: int| 0 <= k < requests.len() implies (#[trigger] requests[k]).vector
            != vector by {
            assert(image[k].vector == requests[k].vector);
        }
    }
}

/// In an accepted list a driver has one routine at most: two requests that
/// list the same driver are one request, and it names the vector that the
/// driver declares. So the handler of a driver is called by the routine of
/// its own vector and by no other routine of the image.
pub proof fn lemma_driver_has_one_routine(
    requests: Seq<RegistrationRequest>,
    j: int,
    k: int,
    driver: Driver,
)
    requires
        accepted(requests, requests.len() as int),
        0 <= j < requests.len(),
        0 <= k < requests.len(),
        requests[j].drivers@.contains(driver),
        requests[k].drivers@.contains(driver),
    ensures
        j == k,
        requests[k].vector == driver.vector(),
{
    lemma_accepted(requests);
    let a = choose|a: int| 0 <= a < requests[j].drivers@.len() && requests[j].drivers@[a] == driver;
    assert(requests[j].drivers@[a].vector() == requests[j].vector);
    let b = choose|b: int| 0 <= b < requests[k].drivers@.len() && requests[k].drivers@[b] == driver;
    assert(requests[k].drivers@[b].vector() == requests[k].vector);
}

/// The vector table of a firmware image: one certified interrupt service
/// routine for each vector that a request named.
#[derive(Debug)]
pub struct Image {
    routines: Vec<BindingToken>,
}

impl View for Image {
    type V = Seq<Binding>;

    closed spec fn view(&self) -> Seq<Binding> {
        Seq::new(self.routines@.len(), |k: int| self.routines@[k]@)
    }
}

impl Image {
    #[verifier::type_invariant]
    closed spec fn distinct(self) -> bool {
        one_routine_per_vector(self@)
    }

    /// Verifies `requests` in order and builds the image.
    ///
    /// The image exists exactly when no request is rejected. It then holds
    /// the routine of each request, at the request's position. Otherwise the
    /// error is the rejection of the first rejected request.
    pub fn build(requests: &Vec<RegistrationRequest>) -> (built: Result<Image, BuildError>)
        ensures
            built is Ok <==> accepted(requests@, requests@.len() as int),
            match built {
                Ok(image) => image@ == Seq::new(
                    requests@.len(),
                    |k: int| requested(requests@, k),
                ),
                Err(error) => error.request() < requests@.len() && accepted(
                    requests@,
                    error.request() as int,
                ) && rejection(requests@, error.request() as int) == Some(error),
            },
    {
        let mut routines: Vec<BindingToken> = Vec::new();
        let mut k: usize = 0;
        while k < requests.len()
            invariant
                k <= requests@.len(),
                routines@.len() == k,
                forall|j: int| 0 <= j < k ==> (#[trigger] routines@[j])@ == requested(requests@, j),
                accepted(requests@, k as int),
            decreases requests@.len() - k,
        {
            let request = &requests[k];
            let token = match register_interrupt(request) {
                Ok(token) => token,
                Err(mismatch) => {
                    return Err(BuildError::Mismatch { request: k, mismatch });
                },
            };
            proof {
                lemma_first_mismatch(request.vector, request.drivers@);
            }
            let mut j: usize = 0;
            while j < k
                invariant
                    j <= k,
                    k < requests@.len(),
                    *request == requests@[k as int],
                    first_mismatch(request.vector, request.drivers@) is None,
                    accepted(requests@, k as int),
                    routines@.len() == k,
                    forall|i: int|
                        0 <= i < k ==> (#[trigger] routines@[i])@ == requested(requests@, i),
                    forall|i: int| 0 <= i < j ==> (#[trigger] requests@[i]).vector != requests@[k as int].vector,
                decreases k - j,
            {
                if routines[j].vector() == request.vector {
                    return Err(BuildError::Conflict { request: k, vector: request.vector });
                }
                j += 1;
            }
            routines.push(token);
            k += 1;
        }
        proof {
            lemma_accepted(requests@);
            assert(Seq::new(routines@.len(), |k: int| routines@[k]@) =~= Seq::new(
                requests@.len(),
                |k: int| requested(requests@, k),
            ));
        }
        Ok(Image { routines })
    }

    /// The number of routines in the image.
    pub fn len(&self) -> (n: usize)
        ensures
            n == self@.len(),
    {
        self.routines.len()
    }

    /// A copy of the token that certifies the routine of `vector`, if the
    /// image has a routine for it.
    pub fn token(&self, vector: Interrupt) -> (token: Option<BindingToken>)
        ensures
            match token {
                Some(token) => routine(self@, vector) == Some(token@),
                None => routine(self@, vector) is None,
            },
    {
        let mut k: usize = 0;
        while k < self.routines.len()
            invariant
                k <= self.routines@.len(),
                forall|j: int| 0 <= j < k ==> (#[trigger] self@[j]).vector != vector,
            decreases self.routines@.len() - k,
        {
            if self.routines[k].vector() == vector {
                proof {
                    use_type_invariant(self);
                    assert(self@[k as int].vector == vector);
                }
                return Some(self.routines[k].clone());
            }
            k += 1;
        }
        None
    }
}

} // verus!
