//! The FFT plan of libcava: its status and error message.
use vstd::prelude::*;

use crate::cava::error::Error;

verus! {

/// What the service reads of libcava's `cava_plan`: the status code (0 = success)
/// and the error message that `cava_init` wrote.
#[derive(Debug, Clone, PartialEq, Eq)]
pub struct Plan {
    status: i32,
    error_message: String,
}

impl Plan {
    /// The status code.
    pub closed spec fn status_spec(&self) -> i32 {
        self.status
    }

    /// The message libcava wrote.
    pub closed spec fn message_spec(&self) -> Seq<char> {
        self.error_message@
    }

    /// A plan with this status and message, as read from libcava.
    pub fn from_raw(status: i32, error_message: String) -> (res: Self)
        ensures
            res.status_spec() == status,
            res.message_spec() == error_message@,
    {
        Plan { status, error_message }
    }

    /// Returns the plan's status code (0 = success).
    pub fn status(&self) -> (res: i32)
        ensures
            res == self.status_spec(),
    {
        self.status
    }

    /// Returns the error message if status is non-zero.
    pub fn error_message(&self) -> (res: Option<String>)
        ensures
            self.status_spec() == 0 ==> res is None,
            self.status_spec() != 0 ==> (res matches Some(m) && m@ == self.message_spec()),
    {
        if self.status != 0 {
            return Some(self.error_message.clone());
        }
        None
    }

    /// What creating a plan gives, from what `cava_init` returned (`None`: a null plan):
    /// an error for a null plan or a nonzero status, else the plan.
    pub fn new(initialized: Option<Plan>) -> (res: Result<Plan, Error>)
        ensures
            match initialized {
                None => res == Err::<Plan, Error>(Error::NullPlan),
                Some(p) => if p.status_spec() == 0 {
                    res == Ok::<Plan, Error>(p)
                } else {
                    res matches Err(Error::InitFailed(m)) && m@ == p.message_spec()
                },
            },
    {
        let plan = match initialized {
            Some(p) => p,
            None => return Err(Error::NullPlan),
        };
        if plan.status() != 0 {
            let msg = match plan.error_message() {
                Some(m) => m,
                None => String::from_str("Unknown error"),
            };
            return Err(Error::InitFailed(msg));
        }
        Ok(plan)
    }
}

} // verus!
