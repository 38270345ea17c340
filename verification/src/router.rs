//! The router.
use vstd::prelude::*;
use crate::admission::{PrefillAdmission, WorkerRooms};
use crate::config::{config_result_is, env_outcome, EnvReading};

verus! {

/// Routes requests to pairs of a prefill and a decode worker.
#[derive(Debug)]
pub struct PDRouter {
    pub api_key: Option<String>,
    /// Whether the router serves several models.
    pub enable_igw: bool,
    pub prefill_admission: PrefillAdmission,
}

impl PDRouter {
    /// A router with the admission that the environment asks for. The last
    /// three arguments are what reading the variables of the environment gave.
    pub fn new(
        api_key: Option<String>,
        enable_igw: bool,
        max_rooms: EnvReading,
        queue_size: EnvReading,
        queue_timeout: EnvReading,
    ) -> (r: Result<Self, String>)
        ensures
            r is Ok ==> {
                &&& r->Ok_0.api_key == api_key
                &&& r->Ok_0.enable_igw == enable_igw
                &&& r->Ok_0.prefill_admission.wf()
                &&& r->Ok_0.prefill_admission@ == Map::<Seq<char>, WorkerRooms>::empty()
            },
            config_result_is(
                match r {
                    Ok(router) => Ok(router.prefill_admission.settings()),
                    Err(message) => Err(message),
                },
                env_outcome(max_rooms@, queue_size@, queue_timeout@),
            ),
    {
        match PrefillAdmission::from_env(max_rooms, queue_size, queue_timeout) {
            Ok(prefill_admission) => Ok(PDRouter { api_key, enable_igw, prefill_admission }),
            Err(message) => Err(message),
        }
    }

    /// The kind of router that this is.
    pub fn router_type() -> (r: &'static str)
        ensures
            r@ == "pd"@,
    {
        "pd"
    }
}

} // verus!
