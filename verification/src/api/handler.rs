//! Request and response bodies, their conversion to and from the commands'
//! and queries' own types, and the status that each outcome is answered
//! with.

use crate::aggregate::circle::{Circle, CircleView};
use crate::command::{create_circle, update_circle};
use crate::query::{get_circle, list_circles};
use vstd::prelude::*;
use vstd::std_specs::convert::FromSpecImpl;

verus! {

pub const OK: u16 = 200;

pub const BAD_REQUEST: u16 = 400;

pub const CONFLICT: u16 = 409;

pub const INTERNAL_SERVER_ERROR: u16 = 500;

#[derive(Debug)]
pub struct CreateCircleRequestBody {
    pub circle_name: String,
    pub capacity: i16,
}

impl From<CreateCircleRequestBody> for create_circle::Input {
    fn from(body: CreateCircleRequestBody) -> (input: create_circle::Input)
        ensures
            input.circle_name == body.circle_name,
            input.capacity == body.capacity,
    {
        let CreateCircleRequestBody { circle_name, capacity } = body;
        create_circle::Input { circle_name, capacity }
    }
}

impl FromSpecImpl<CreateCircleRequestBody> for create_circle::Input {
    open spec fn obeys_from_spec() -> bool {
        true
    }

    open spec fn from_spec(body: CreateCircleRequestBody) -> create_circle::Input {
        create_circle::Input { circle_name: body.circle_name, capacity: body.capacity }
    }
}

#[derive(Debug)]
pub struct CreateCircleResponseBody {
    pub circle_id: String,
}

impl From<create_circle::Output> for CreateCircleResponseBody {
    fn from(output: create_circle::Output) -> (body: CreateCircleResponseBody)
        ensures
            body.circle_id == output.circle_id,
    {
        let create_circle::Output { circle_id } = output;
        CreateCircleResponseBody { circle_id }
    }
}

impl FromSpecImpl<create_circle::Output> for CreateCircleResponseBody {
    open spec fn obeys_from_spec() -> bool {
        true
    }

    open spec fn from_spec(output: create_circle::Output) -> CreateCircleResponseBody {
        CreateCircleResponseBody { circle_id: output.circle_id }
    }
}

/// The status that the outcome of a creation is answered with.
pub fn create_circle_status(result: &Result<create_circle::Output, create_circle::Error>) -> (status:
    u16)
    ensures
        status == match result {
            Ok(_) => OK,
            Err(create_circle::Error::InvalidInput) => BAD_REQUEST,
            Err(create_circle::Error::Duplicate) => CONFLICT,
            Err(create_circle::Error::Circle) => INTERNAL_SERVER_ERROR,
        },
{
    match result {
        Ok(_) => OK,
        Err(create_circle::Error::InvalidInput) => BAD_REQUEST,
        Err(create_circle::Error::Duplicate) => CONFLICT,
        Err(create_circle::Error::Circle) => INTERNAL_SERVER_ERROR,
    }
}

/// The path parameter of a fetch: one circle, or all of them.
#[derive(Debug)]
pub struct FetchCircleInputParam {
    pub id: Option<String>,
}

#[derive(Debug)]
pub struct FetcheCircleResponseBody {
    pub circle_id: String,
    pub circle_name: String,
    pub capacity: i16,
}

/// A fetched circle as mathematical values.
pub struct FetchedView {
    pub circle_id: Seq<char>,
    pub circle_name: Seq<char>,
    pub capacity: i16,
}

impl View for FetcheCircleResponseBody {
    type V = FetchedView;

    open spec fn view(&self) -> FetchedView {
        FetchedView {
            circle_id: self.circle_id@,
            circle_name: self.circle_name@,
            capacity: self.capacity,
        }
    }
}

/// The body that shows a circle.
pub open spec fn body_of(circle: CircleView) -> FetchedView {
    FetchedView { circle_id: circle.id, circle_name: circle.name, capacity: circle.capacity }
}

/// The body that stands for a circle the cache does not hold: empty texts
/// and a capacity of 0.
pub open spec fn empty_body() -> FetchedView {
    FetchedView { circle_id: Seq::empty(), circle_name: Seq::empty(), capacity: 0 }
}

impl From<get_circle::Output> for FetcheCircleResponseBody {
    fn from(output: get_circle::Output) -> (body: FetcheCircleResponseBody)
        ensures
            body@ == match output.0 {
                Some(circle) => body_of(circle@),
                None => empty_body(),
            },
    {
        match output.0 {
            Some(circle) => FetcheCircleResponseBody {
                circle_id: circle.id.to_string(),
                circle_name: circle.name,
                capacity: circle.capacity,
            },
            None => FetcheCircleResponseBody {
                circle_id: String::new(),
                circle_name: String::new(),
                capacity: 0,
            },
        }
    }
}

/// A `String` cannot be built in ghost code, so `from` states its result
/// over the view and this impl claims nothing beyond it.
impl FromSpecImpl<get_circle::Output> for FetcheCircleResponseBody {
    open spec fn obeys_from_spec() -> bool {
        false
    }

    open spec fn from_spec(output: get_circle::Output) -> FetcheCircleResponseBody {
        choose|body: FetcheCircleResponseBody|
            body@ == match output.0 {
                Some(circle) => body_of(circle@),
                None => empty_body(),
            }
    }
}

/// The views of a sequence of bodies, in order.
pub open spec fn body_views(bodies: Seq<FetcheCircleResponseBody>) -> Seq<FetchedView> {
    bodies.map_values(|b: FetcheCircleResponseBody| b@)
}

/// The answer to a fetch of one circle: a list of exactly one body.
pub fn fetch_one(output: get_circle::Output) -> (bodies: Vec<FetcheCircleResponseBody>)
    ensures
        body_views(bodies@) == seq![
            match output.0 {
                Some(circle) => body_of(circle@),
                None => empty_body(),
            },
        ],
{
    let mut bodies: Vec<FetcheCircleResponseBody> = Vec::new();
    bodies.push(FetcheCircleResponseBody::from(output));
    assert(body_views(bodies@) =~= seq![bodies[0]@]);
    bodies
}

/// The answer to a fetch of all circles: one body for each, in order.
pub fn fetch_all(output: list_circles::Output) -> (bodies: Vec<FetcheCircleResponseBody>)
    ensures
        body_views(bodies@) == output.0@.map_values(|c: Circle| body_of(c@)),
{
    let list_circles::Output(circles) = output;
    let mut bodies: Vec<FetcheCircleResponseBody> = Vec::new();
    let mut i: usize = 0;
    while i < circles.len()
        invariant
            0 <= i <= circles.len(),
            bodies.len() == i,
            forall|k: int| 0 <= k < i ==> (#[trigger] bodies[k])@ == body_of(circles[k]@),
        decreases circles.len() - i,
    {
        let circle = circles[i].clone();
        bodies.push(FetcheCircleResponseBody::from(get_circle::Output(Some(circle))));
        i += 1;
    }
    assert(body_views(bodies@) =~= circles@.map_values(|c: Circle| body_of(c@)));
    bodies
}

/// The path parameter of an update.
#[derive(Debug)]
pub struct UpdateCircleInputParam {
    pub id: String,
}

#[derive(Debug)]
pub struct UpdateCircleRequestBody {
    pub circle_name: Option<String>,
    pub capacity: Option<i16>,
    pub version: u32,
}

impl UpdateCircleRequestBody {
    /// The command's input: the body, and the identifier from the path.
    pub fn into_to_input(self, id: String) -> (input: update_circle::Input)
        ensures
            input.circle_id == id,
            input.circle_name == self.circle_name,
            input.capacity == self.capacity,
            input.version == self.version,
    {
        update_circle::Input {
            circle_id: id,
            circle_name: self.circle_name,
            capacity: self.capacity,
            version: self.version,
        }
    }
}

#[derive(Debug)]
pub struct UpdateCircleResponseBody {
    pub circle_id: String,
}

impl From<update_circle::Output> for UpdateCircleResponseBody {
    fn from(output: update_circle::Output) -> (body: UpdateCircleResponseBody)
        ensures
            body.circle_id == output.circle_id,
    {
        UpdateCircleResponseBody { circle_id: output.circle_id }
    }
}

impl FromSpecImpl<update_circle::Output> for UpdateCircleResponseBody {
    open spec fn obeys_from_spec() -> bool {
        true
    }

    open spec fn from_spec(output: update_circle::Output) -> UpdateCircleResponseBody {
        UpdateCircleResponseBody { circle_id: output.circle_id }
    }
}

/// The status that the outcome of an update is answered with.
pub fn update_circle_status(result: &Result<update_circle::Output, update_circle::Error>) -> (status:
    u16)
    ensures
        status == match result {
            Ok(_) => OK,
            Err(update_circle::Error::InvalidInput) => BAD_REQUEST,
            Err(update_circle::Error::Duplicate) => BAD_REQUEST,
            Err(update_circle::Error::Circle) => INTERNAL_SERVER_ERROR,
            Err(update_circle::Error::VersionMismatch) => CONFLICT,
        },
{
    match result {
        Ok(_) => OK,
        Err(update_circle::Error::InvalidInput) => BAD_REQUEST,
        Err(update_circle::Error::Duplicate) => BAD_REQUEST,
        Err(update_circle::Error::Circle) => INTERNAL_SERVER_ERROR,
        Err(update_circle::Error::VersionMismatch) => CONFLICT,
    }
}

/// A member as a response shows it.
#[derive(Debug)]
pub struct MemberOutput {
    pub id: String,
    pub name: String,
    pub age: i16,
    pub grade: i16,
    pub major: String,
}

} // verus!
