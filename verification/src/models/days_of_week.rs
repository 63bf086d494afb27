//! The names of the weekdays and the numbers they are stored under.

use vstd::prelude::*;
use crate::utils::error_handlers::MappedErrors;

verus! {

/// A weekday as the store names it.
#[derive(Debug, Clone, PartialEq, Eq)]
pub struct DayOfWeek {
    pub id: i32,
    pub name: String,
}

impl DayOfWeek {
    /// The number of the first day among `days` that is called `name`;
    /// `NotFound` where none is.
    pub fn get_day_id_by_name(days: &Vec<DayOfWeek>, name: &String) -> (r: Result<i32, MappedErrors>)
        ensures
            match r {
                Ok(id) => exists|i: int|
                    0 <= i < days.len() && (#[trigger] days@[i]).name@ == name@ && days@[i].id == id
                        && forall|j: int| 0 <= j < i ==> (#[trigger] days@[j]).name@ != name@,
                Err(e) => e == MappedErrors::NotFound && forall|i: int|
                    0 <= i < days.len() ==> (#[trigger] days@[i]).name@ != name@,
            },
    {
        let mut i: usize = 0;
        while i < days.len()
            invariant
                i <= days.len(),
                forall|j: int| 0 <= j < i ==> (#[trigger] days@[j]).name@ != name@,
            decreases days.len() - i,
        {
            if days[i].name == *name {
                return Ok(days[i].id);
            }
            i += 1;
        }
        Err(MappedErrors::NotFound)
    }
}

} // verus!
