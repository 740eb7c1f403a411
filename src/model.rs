use crate::text::{decimal, push_decimal};
use vstd::prelude::*;

verus! {

/// What a caller submits to record a greeting.
pub struct Info {
    pub name: String,
}

/// A one-line answer of the service.
pub struct ResponseMessage {
    pub message: String,
}

/// A recorded greeting: the id the store gave it and the name it holds.
#[derive(Debug)]
pub struct Greeting {
    pub id: i32,
    pub name: String,
}

impl Greeting {
    pub fn new(id: i32, name: String) -> (r: Greeting)
        ensures
            r.id == id,
            r.name == name,
    {
        Greeting { id, name }
    }
}

impl PartialEq for Greeting {
    fn eq(&self, o: &Greeting) -> (r: bool) {
        self.id == o.id && self.name == o.name
    }
}

impl vstd::std_specs::cmp::PartialEqSpecImpl for Greeting {
    open spec fn obeys_eq_spec() -> bool {
        true
    }

    open spec fn eq_spec(&self, o: &Greeting) -> bool {
        self.id == o.id && self.name@ == o.name@
    }
}

/// Why an operation of the service gave no answer.
#[derive(Debug)]
pub enum ServiceError {
    /// The store could not run a statement; `detail` is its account of why.
    Storage { detail: String },
    /// The store answered, and holds no greeting with this id.
    NotFound { id: i32 },
}

/// The status a transport gives to an error: a fault of the server, or no such resource.
pub open spec fn status_of(e: ServiceError) -> u16 {
    match e {
        ServiceError::Storage { .. } => 500,
        ServiceError::NotFound { .. } => 404,
    }
}

/// The text a transport shows for an error.
pub open spec fn error_text(e: ServiceError) -> Seq<char> {
    match e {
        ServiceError::Storage { detail } => "Error: "@ + detail@,
        ServiceError::NotFound { id } => "No greeting found with id "@ + decimal(id as int),
    }
}

impl ServiceError {
    pub fn status_code(&self) -> (r: u16)
        ensures
            r == status_of(*self),
    {
        match self {
            ServiceError::Storage { .. } => 500,
            ServiceError::NotFound { .. } => 404,
        }
    }

    pub fn message(&self) -> (r: String)
        ensures
            r@ == error_text(*self),
    {
        match self {
            ServiceError::Storage { detail } => {
                let mut text = String::from_str("Error: ");
                text.append(detail.as_str());
                text
            },
            ServiceError::NotFound { id } => {
                let mut text = String::from_str("No greeting found with id ");
                push_decimal(&mut text, *id as i64);
                text
            },
        }
    }
}

/// The outcome of looking up `id`, given the row the store answered with, if any:
/// a missing row is the not-found outcome, never a storage error.
pub fn lookup_result(id: i32, row: Option<Greeting>) -> (r: Result<Greeting, ServiceError>)
    ensures
        match row {
            Some(g) => r == Ok::<Greeting, ServiceError>(g),
            None => r == Err::<Greeting, ServiceError>(ServiceError::NotFound { id }),
        },
{
    match row {
        Some(g) => Ok(g),
        None => Err(ServiceError::NotFound { id }),
    }
}

} // verus!
