use vstd::prelude::*;

verus! {

/// What the health endpoint reports.
#[derive(Debug)]
pub struct Health {
    pub status: String,
    pub version: String,
    pub uptime: u64,
}

impl Default for Health {
    fn default() -> (health: Health)
        ensures
            health.status@ == Seq::<char>::empty(),
            health.version@ == Seq::<char>::empty(),
            health.uptime == 0,
    {
        Health { status: String::new(), version: String::new(), uptime: 0 }
    }
}

} // verus!
