//! Workers and the choice of a prefill and decode pair.
use vstd::prelude::*;
use crate::config::text_of;
use crate::router::PDRouter;
use crate::status::{create_error, ErrorReply, ErrorText, SERVICE_UNAVAILABLE};
use crate::text::{cat2, cat3, cat5};

verus! {

/// What a worker is for.
#[derive(Clone, Copy, Debug, PartialEq, Eq, Structural)]
pub enum WorkerType {
    Regular,
    Prefill { bootstrap_port: Option<u16> },
    Decode,
}

/// A worker as routing sees it.
#[derive(Debug)]
pub struct Worker {
    /// The URL under which the worker is registered.
    pub url: String,
    /// The URL under which the worker is reached.
    pub base_url: String,
    pub worker_type: WorkerType,
    /// The host at which a decode worker meets this one.
    pub bootstrap_host: String,
    /// The rank of the worker among its data-parallel peers, where it has any.
    pub dp_rank: Option<usize>,
    /// What the worker says of a request body that it cannot direct at its rank.
    pub body_refusal: String,
    /// Whether the worker is healthy and its circuit breaker lets requests through.
    pub available: bool,
}

impl Worker {
    /// The port at which a decode worker meets this one.
    #[verifier::allow_in_spec]
    pub fn bootstrap_port(&self) -> Option<u16>
        returns
            (match self.worker_type {
                WorkerType::Prefill { bootstrap_port } => bootstrap_port,
                _ => None,
            }),
    {
        match self.worker_type {
            WorkerType::Prefill { bootstrap_port } => bootstrap_port,
            _ => None,
        }
    }
}

/// The two roles of a pair.
#[derive(Clone, Copy, Debug, PartialEq, Eq, Structural)]
pub enum Role {
    Prefill,
    Decode,
}

impl Role {
    /// The role as messages name it.
    pub open spec fn spec_name(self) -> Seq<char> {
        match self {
            Role::Prefill => "prefill"@,
            Role::Decode => "decode"@,
        }
    }

    /// The role as messages name it.
    pub fn name(self) -> (r: &'static str)
        ensures
            r@ == self.spec_name(),
    {
        match self {
            Role::Prefill => "prefill",
            Role::Decode => "decode",
        }
    }
}

/// Whether a worker can take a role.
pub open spec fn has_role(worker: Worker, role: Role) -> bool {
    match role {
        Role::Prefill => worker.worker_type is Prefill,
        Role::Decode => worker.worker_type is Decode,
    }
}

/// The path of an endpoint under a base URL, with one slash between them where
/// the endpoint brings none.
pub open spec fn endpoint_url(base_url: Seq<char>, endpoint: Seq<char>) -> Seq<char> {
    if endpoint.len() > 0 && endpoint[0] == '/' {
        base_url + endpoint
    } else {
        base_url + "/"@ + endpoint
    }
}

impl PDRouter {
    /// The URL of an endpoint of a worker: under its base URL, without a data-parallel rank.
    pub fn worker_endpoint_url(worker: &Worker, endpoint: &str) -> (r: String)
        ensures
            r@ == endpoint_url(worker.base_url@, endpoint@),
    {
        proof {
            reveal_strlit("/");
            assert("/"@ =~= seq!['/']);
            if endpoint@.len() > 0 {
                assert(endpoint@.subrange(0, 1) =~= seq![endpoint@[0]]);
                assert(seq!['/'][0] == '/' && seq![endpoint@[0]][0] == endpoint@[0]);
            }
        }
        if crate::text::starts_with(endpoint, "/") {
            cat2(worker.base_url.as_str(), endpoint)
        } else {
            cat3(worker.base_url.as_str(), "/", endpoint)
        }
    }
}

/// Where a request to the first prefill worker goes, or the reply where there is no such worker.
pub fn first_prefill_url(workers: &Vec<Worker>, endpoint: &str) -> (r: Result<String, ErrorReply>)
    ensures
        match r {
            Ok(url) => workers@.len() > 0 && url@ == endpoint_url(
                workers@[0].base_url@,
                endpoint@,
            ),
            Err(reply) => workers@.len() == 0 && reply@ == (ErrorText {
                status: SERVICE_UNAVAILABLE,
                code: "no_prefill_servers"@,
                message: "No prefill servers available"@,
            }),
        },
{
    if workers.len() > 0 {
        Ok(PDRouter::worker_endpoint_url(&workers[0], endpoint))
    } else {
        Err(
            create_error(
                SERVICE_UNAVAILABLE,
                "no_prefill_servers",
                "No prefill servers available".to_string(),
            ),
        )
    }
}

/// The positions, in order, of the workers that satisfy a condition.
pub open spec fn positions(workers: Seq<Worker>, condition: spec_fn(Worker) -> bool) -> Seq<int>
    decreases workers.len(),
{
    if workers.len() == 0 {
        Seq::empty()
    } else {
        let before = positions(workers.drop_last(), condition);
        if condition(workers.last()) {
            before.push(workers.len() - 1)
        } else {
            before
        }
    }
}

/// Positions as they are computed.
pub open spec fn as_ints(list: Seq<usize>) -> Seq<int> {
    list.map_values(|i: usize| i as int)
}

proof fn lemma_positions(workers: Seq<Worker>, condition: spec_fn(Worker) -> bool)
    ensures
        positions(workers, condition).len() <= workers.len(),
        forall|k: int|
            #![trigger positions(workers, condition)[k]]
            0 <= k < positions(workers, condition).len() ==> 0 <= positions(workers, condition)[k]
                < workers.len() && condition(workers[positions(workers, condition)[k]]),
        forall|i: int|
            0 <= i < workers.len() && condition(#[trigger] workers[i]) ==> positions(
                workers,
                condition,
            ).contains(i),
    decreases workers.len(),
{
    if workers.len() > 0 {
        let shorter = workers.drop_last();
        let before = positions(shorter, condition);
        lemma_positions(shorter, condition);
        assert forall|k: int|
            #![trigger positions(workers, condition)[k]]
            0 <= k < positions(workers, condition).len() implies 0 <= positions(workers, condition)[k]
            < workers.len() && condition(workers[positions(workers, condition)[k]]) by {
            if k < before.len() {
                assert(before[k] == positions(workers, condition)[k]);
                assert(shorter[before[k]] == workers[before[k]]);
            }
        }
        assert forall|i: int| 0 <= i < workers.len() && condition(#[trigger] workers[i]) implies positions(
            workers,
            condition,
        ).contains(i) by {
            if i < shorter.len() {
                assert(condition(shorter[i]));
                let k = choose|k: int| 0 <= k < before.len() && before[k] == i;
                assert(positions(workers, condition)[k] == i);
            } else {
                assert(positions(workers, condition)[before.len() as int] == i);
            }
        }
    }
}

/// The positions of the workers that a policy may choose from for a role: those
/// that can take it and are available.
pub open spec fn candidates(workers: Seq<Worker>, role: Role) -> Seq<int> {
    positions(workers, |worker: Worker| has_role(worker, role) && worker.available)
}

/// Whether some worker can take a role.
pub open spec fn role_is_staffed(workers: Seq<Worker>, role: Role) -> bool {
    exists|i: int| 0 <= i < workers.len() && has_role(#[trigger] workers[i], role)
}

/// Whether the worker at a position can take a role and is available.
pub open spec fn is_candidate(workers: Seq<Worker>, role: Role, i: int) -> bool {
    0 <= i < workers.len() && has_role(workers[i], role) && workers[i].available
}

/// Why there is no worker to choose from for a role.
pub open spec fn no_candidates(workers: Seq<Worker>, role: Role) -> Seq<char> {
    if role_is_staffed(workers, role) {
        none_available(role)
    } else {
        no_workers(role)
    }
}

/// The message where no worker has a role.
pub open spec fn no_workers(role: Role) -> Seq<char> {
    "No "@ + role.spec_name() + " workers available. Please check if "@ + role.spec_name()
        + " servers are configured and healthy."@
}

/// The message where every worker of a role is out.
pub open spec fn none_available(role: Role) -> Seq<char> {
    "No available "@ + role.spec_name() + " workers (all circuits open or unhealthy)"@
}

/// The message where the policy chose none of the available workers.
pub open spec fn policy_failed(role: Role, policy: Seq<char>) -> Seq<char> {
    "Policy "@ + policy + " failed to select a "@ + role.spec_name() + " worker"@
}

/// The workers that a policy may choose from for a role.
pub fn available_workers(workers: &Vec<Worker>, role: Role) -> (r: Result<Vec<usize>, String>)
    ensures
        match r {
            Ok(available) => available@.len() > 0 && as_ints(available@) == candidates(
                workers@,
                role,
            ),
            Err(message) => candidates(workers@, role).len() == 0 && message@ == no_candidates(
                workers@,
                role,
            ),
        },
{
    let ghost condition = |worker: Worker| has_role(worker, role) && worker.available;
    let mut staffed = false;
    let mut r: Vec<usize> = Vec::new();
    let mut i: usize = 0;
    assert(as_ints(r@) =~= positions(workers@.take(0), condition));
    while i < workers.len()
        invariant
            i <= workers@.len(),
            condition == (|worker: Worker| has_role(worker, role) && worker.available),
            as_ints(r@) == positions(workers@.take(i as int), condition),
            staffed == exists|j: int| 0 <= j < i && has_role(#[trigger] workers@[j], role),
        decreases workers.len() - i,
    {
        let ghost before = r@;
        let fits = match (role, workers[i].worker_type) {
            (Role::Prefill, WorkerType::Prefill { .. }) => true,
            (Role::Decode, WorkerType::Decode) => true,
            _ => false,
        };
        assert(fits == has_role(workers@[i as int], role));
        if fits {
            staffed = true;
            if workers[i].available {
                r.push(i);
                assert(as_ints(r@) =~= as_ints(before).push(i as int));
            }
        }
        assert(workers@.take(i + 1).drop_last() =~= workers@.take(i as int));
        i += 1;
    }
    assert(workers@.take(i as int) =~= workers@);
    if !staffed {
        assert(as_ints(r@).len() == 0) by {
            lemma_positions(workers@, condition);
            if as_ints(r@).len() > 0 {
                assert(condition(workers@[positions(workers@, condition)[0]]));
            }
        }
        return Err(
            cat5(
                "No ",
                role.name(),
                " workers available. Please check if ",
                role.name(),
                " servers are configured and healthy.",
            ),
        );
    }
    if r.len() == 0 {
        assert(as_ints(r@).len() == 0);
        return Err(
            cat3("No available ", role.name(), " workers (all circuits open or unhealthy)"),
        );
    }
    Ok(r)
}

/// The worker that a policy chose: `choice` counts among the workers it was offered.
pub fn chosen_worker(
    available: &Vec<usize>,
    choice: Option<usize>,
    policy: &str,
    role: Role,
) -> (r: Result<usize, String>)
    requires
        choice is Some ==> choice->0 < available@.len(),
    ensures
        match choice {
            Some(i) => r is Ok && r->Ok_0 == available@[i as int],
            None => r is Err && r->Err_0@ == policy_failed(role, policy@),
        },
{
    match choice {
        Some(i) => Ok(available[i]),
        None => Err(cat5("Policy ", policy, " failed to select a ", role.name(), " worker")),
    }
}

/// The choice of a pair, waiting for the prefill policy.
#[derive(Debug)]
pub struct PrefillPick {
    /// The positions of the workers that the policy is offered.
    pub offered: Vec<usize>,
}

/// The choice of a pair, waiting for the decode policy.
#[derive(Debug)]
pub struct DecodePick {
    /// The position of the prefill worker.
    pub prefill: usize,
    /// The positions of the workers that the policy is offered.
    pub offered: Vec<usize>,
}

impl PDRouter {
    /// The model that narrows the choice of workers: the request's, where the
    /// router serves several models.
    pub fn effective_model_id<'a>(&self, model_id: Option<&'a str>) -> (r: Option<&'a str>)
        ensures
            text_of(r) == if self.enable_igw {
                text_of(model_id)
            } else {
                None
            },
    {
        if !self.enable_igw {
            None
        } else {
            model_id
        }
    }

    /// Starts the choice of a prefill and decode pair among the given workers.
    pub fn select_pd_pair(workers: &Vec<Worker>) -> (r: Result<PrefillPick, String>)
        ensures
            r is Ok <==> exists|i: int| is_candidate(workers@, Role::Prefill, i),
            r is Ok ==> r->Ok_0.offered@.len() > 0 && as_ints(r->Ok_0.offered@) == candidates(
                workers@,
                Role::Prefill,
            ),
            r is Err ==> r->Err_0@ == no_candidates(workers@, Role::Prefill),
    {
        proof {
            lemma_some_candidate(workers@, Role::Prefill);
        }
        match available_workers(workers, Role::Prefill) {
            Ok(offered) => Ok(PrefillPick { offered }),
            Err(message) => Err(message),
        }
    }
}

impl PrefillPick {
    /// Goes on to the decode worker with what the prefill policy chose.
    pub fn chosen(self, choice: Option<usize>, policy: &str, workers: &Vec<Worker>) -> (r: Result<
        DecodePick,
        String,
    >)
        requires
            choice is Some ==> choice->0 < self.offered@.len(),
        ensures
            r is Ok <==> choice is Some && exists|i: int| is_candidate(workers@, Role::Decode, i),
            r is Ok ==> {
                &&& r->Ok_0.prefill == self.offered@[choice->0 as int]
                &&& r->Ok_0.offered@.len() > 0
                &&& as_ints(r->Ok_0.offered@) == candidates(workers@, Role::Decode)
            },
            r is Err ==> r->Err_0@ == if choice is None {
                policy_failed(Role::Prefill, policy@)
            } else {
                no_candidates(workers@, Role::Decode)
            },
    {
        proof {
            lemma_some_candidate(workers@, Role::Decode);
        }
        match chosen_worker(&self.offered, choice, policy, Role::Prefill) {
            Ok(prefill) => match available_workers(workers, Role::Decode) {
                Ok(offered) => Ok(DecodePick { prefill, offered }),
                Err(message) => Err(message),
            },
            Err(message) => Err(message),
        }
    }
}

impl DecodePick {
    /// Completes the pair with what the decode policy chose: the positions of
    /// the prefill and the decode worker.
    pub fn chosen(self, choice: Option<usize>, policy: &str) -> (r: Result<(usize, usize), String>)
        requires
            choice is Some ==> choice->0 < self.offered@.len(),
        ensures
            match choice {
                Some(i) => r is Ok && r->Ok_0 == (self.prefill, self.offered@[i as int]),
                None => r is Err && r->Err_0@ == policy_failed(Role::Decode, policy@),
            },
    {
        match chosen_worker(&self.offered, choice, policy, Role::Decode) {
            Ok(decode) => Ok((self.prefill, decode)),
            Err(message) => Err(message),
        }
    }
}

proof fn lemma_some_candidate(workers: Seq<Worker>, role: Role)
    ensures
        (candidates(workers, role).len() > 0) <==> exists|i: int| is_candidate(workers, role, i),
{
    let condition = |worker: Worker| has_role(worker, role) && worker.available;
    lemma_positions(workers, condition);
    if candidates(workers, role).len() > 0 {
        let i = positions(workers, condition)[0];
        assert(is_candidate(workers, role, i));
    }
    if exists|i: int| is_candidate(workers, role, i) {
        let i = choose|i: int| is_candidate(workers, role, i);
        assert(condition(workers[i]));
        assert(positions(workers, condition).contains(i));
    }
}

/// Whatever a policy chooses of the workers that it is offered for a role can
/// take the role and is available.
pub proof fn law_a_choice_is_fit_and_available(
    workers: Seq<Worker>,
    role: Role,
    offered: Seq<usize>,
    choice: int,
)
    requires
        as_ints(offered) == candidates(workers, role),
        0 <= choice < offered.len(),
    ensures
        is_candidate(workers, role, offered[choice] as int),
{
    lemma_positions(workers, |worker: Worker| has_role(worker, role) && worker.available);
    assert(as_ints(offered)[choice] == offered[choice]);
}

/// Every worker that can take a role and is available is offered to the policy,
/// once, and the workers are offered in their order.
pub proof fn law_every_fit_worker_is_offered_in_order(workers: Seq<Worker>, role: Role)
    ensures
        forall|i: int| #[trigger]
            is_candidate(workers, role, i) ==> candidates(workers, role).contains(i),
        forall|j: int, k: int|
            0 <= j < k < candidates(workers, role).len() ==> candidates(workers, role)[j]
                < candidates(workers, role)[k],
{
    let condition = |worker: Worker| has_role(worker, role) && worker.available;
    lemma_positions(workers, condition);
    lemma_positions_ascend(workers, condition);
    assert forall|i: int| #[trigger] is_candidate(workers, role, i) implies candidates(
        workers,
        role,
    ).contains(i) by {
        assert(condition(workers[i]));
    }
}

proof fn lemma_positions_ascend(workers: Seq<Worker>, condition: spec_fn(Worker) -> bool)
    ensures
        forall|j: int, k: int|
            0 <= j < k < positions(workers, condition).len() ==> positions(workers, condition)[j]
                < positions(workers, condition)[k],
    decreases workers.len(),
{
    if workers.len() > 0 {
        let shorter = workers.drop_last();
        lemma_positions(shorter, condition);
        lemma_positions_ascend(shorter, condition);
        assert forall|j: int, k: int|
            0 <= j < k < positions(workers, condition).len() implies positions(workers, condition)[j]
            < positions(workers, condition)[k] by {
            let before = positions(shorter, condition);
            assert(positions(workers, condition)[j] == before[j]);
            if k < before.len() {
                assert(positions(workers, condition)[k] == before[k]);
            }
        }
    }
}

} // verus!
