use crate::domain::entity::health::Health;
use vstd::prelude::*;

verus! {

pub struct HealthUsecase {}

impl HealthUsecase {
    pub fn new() -> (usecase: HealthUsecase) {
        HealthUsecase {  }
    }

    /// The service is up: status `OK`, version `1.0.0`, no uptime kept.
    pub fn get_health(&self) -> (health: Health)
        ensures
            health.status@ == "OK"@,
            health.version@ == "1.0.0"@,
            health.uptime == 0,
    {
        Health { status: String::from_str("OK"), version: String::from_str("1.0.0"), uptime: 0 }
    }
}

impl Default for HealthUsecase {
    fn default() -> (usecase: HealthUsecase) {
        HealthUsecase::new()
    }
}

} // verus!
