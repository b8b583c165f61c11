//! Named counters and gauges, as the components of the system declare them.

use vstd::prelude::*;

verus! {

/// A counter: a named number that only grows.
#[derive(Debug, PartialEq, Eq)]
pub struct IntCounter {
    pub name: String,
    pub help: String,
    pub value: u64,
}

/// A gauge: a named number that goes up and down.
#[derive(Debug, PartialEq, Eq)]
pub struct IntGauge {
    pub name: String,
    pub help: String,
    pub value: i64,
}

impl Clone for IntCounter {
    fn clone(&self) -> (copy: Self)
        ensures
            copy == *self,
    {
        IntCounter { name: self.name.clone(), help: self.help.clone(), value: self.value }
    }
}

impl Clone for IntGauge {
    fn clone(&self) -> (copy: Self)
        ensures
            copy == *self,
    {
        IntGauge { name: self.name.clone(), help: self.help.clone(), value: self.value }
    }
}

/// Declares a counter, which starts at zero.
pub fn new_counter(name: &str, help: &str) -> (counter: IntCounter)
    ensures
        counter.name@ == name@,
        counter.help@ == help@,
        counter.value == 0,
{
    IntCounter { name: name.to_owned(), help: help.to_owned(), value: 0 }
}

/// Declares a gauge, which starts at zero.
pub fn new_gauge(name: &str, help: &str) -> (gauge: IntGauge)
    ensures
        gauge.name@ == name@,
        gauge.help@ == help@,
        gauge.value == 0,
{
    IntGauge { name: name.to_owned(), help: help.to_owned(), value: 0 }
}

} // verus!
