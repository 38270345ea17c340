//! Laws on workers and the choice of a pair.
use vstd::prelude::*;
use crate::router::PDRouter;
use crate::status::ErrorReply;
use crate::worker::{
    as_ints, available_workers, candidates, chosen_worker, first_prefill_url, is_candidate,
    law_a_choice_is_fit_and_available, law_every_fit_worker_is_offered_in_order, DecodePick,
    PrefillPick, Role, Worker, WorkerType,
};

verus! {

/// Whether a worker is of the type that a role asks for, whatever its port.
pub open spec fn is_of_role(worker: Worker, role: Role) -> bool {
    if role is Prefill {
        worker.worker_type is Prefill
    } else {
        worker.worker_type is Decode
    }
}

/// Whether the worker at a position may be chosen for a role.
pub open spec fn may_be_chosen(workers: Seq<Worker>, role: Role, i: int) -> bool {
    0 <= i < workers.len() && is_of_role(workers[i], role) && workers[i].available
}

/// Whether a list of positions is that of every worker that may be chosen for a role,
/// each once and in order.
pub open spec fn is_offer(workers: Seq<Worker>, role: Role, offered: Seq<usize>) -> bool {
    &&& forall|i: int|
        #![trigger may_be_chosen(workers, role, i)]
        may_be_chosen(workers, role, i) <==> exists|k: int|
            0 <= k < offered.len() && #[trigger] offered[k] == i
    &&& forall|j: int, k: int| 0 <= j < k < offered.len() ==> offered[j] < offered[k]
}

/// How a role is called.
pub open spec fn called(role: Role) -> Seq<char> {
    if role is Prefill {
        "prefill"@
    } else {
        "decode"@
    }
}

/// What is said where no worker may be chosen for a role.
pub open spec fn is_lack(workers: Seq<Worker>, role: Role, message: Seq<char>) -> bool {
    if exists|i: int| 0 <= i < workers.len() && is_of_role(#[trigger] workers[i], role) {
        message == "No available "@ + called(role) + " workers (all circuits open or unhealthy)"@
    } else {
        message == "No "@ + called(role) + " workers available. Please check if "@ + called(role)
            + " servers are configured and healthy."@
    }
}

proof fn lemma_offer(workers: Seq<Worker>, role: Role, offered: Seq<usize>)
    requires
        as_ints(offered) == candidates(workers, role),
    ensures
        is_offer(workers, role, offered),
{
    law_every_fit_worker_is_offered_in_order(workers, role);
    assert forall|i: int|
        #![trigger may_be_chosen(workers, role, i)]
        may_be_chosen(workers, role, i) <==> exists|k: int|
            0 <= k < offered.len() && #[trigger] offered[k] == i by {
        if may_be_chosen(workers, role, i) {
            assert(is_candidate(workers, role, i));
            let k = choose|k: int|
                0 <= k < candidates(workers, role).len() && candidates(workers, role)[k] == i;
            assert(as_ints(offered)[k] == offered[k]);
        }
        if exists|k: int| 0 <= k < offered.len() && #[trigger] offered[k] == i {
            let k = choose|k: int| 0 <= k < offered.len() && #[trigger] offered[k] == i;
            law_a_choice_is_fit_and_available(workers, role, offered, k);
        }
    }
    assert forall|j: int, k: int| 0 <= j < k < offered.len() implies offered[j] < offered[k] by {
        assert(as_ints(offered)[j] == offered[j] && as_ints(offered)[k] == offered[k]);
        assert(candidates(workers, role)[j] < candidates(workers, role)[k]);
    }
}

proof fn lemma_no_candidate(workers: Seq<Worker>, role: Role)
    requires
        candidates(workers, role).len() == 0,
    ensures
        forall|i: int| !#[trigger] may_be_chosen(workers, role, i),
{
    law_every_fit_worker_is_offered_in_order(workers, role);
    assert forall|i: int| !#[trigger] may_be_chosen(workers, role, i) by {
        if may_be_chosen(workers, role, i) {
            assert(is_candidate(workers, role, i));
        }
    }
}

proof fn lemma_some_offered(workers: Seq<Worker>, role: Role, offered: Seq<usize>)
    requires
        is_offer(workers, role, offered),
        offered.len() > 0,
    ensures
        may_be_chosen(workers, role, offered[0] as int),
{
    let i = offered[0] as int;
    assert(offered[0] == i);
    assert(may_be_chosen(workers, role, i) <==> exists|k: int|
        0 <= k < offered.len() && #[trigger] offered[k] == i);
}

/// Every available worker of a role is offered, with whatever port or none, and no
/// other; where there is none the message says why.
pub proof fn law_every_available_worker_is_offered(
    workers: &Vec<Worker>,
    role: Role,
    r: Result<Vec<usize>, String>,
)
    requires
        call_ensures(available_workers, (workers, role), r),
    ensures
        r is Ok ==> (r->Ok_0)@.len() > 0 && is_offer(workers@, role, (r->Ok_0)@),
        r is Err ==> is_lack(workers@, role, r->Err_0@),
        r is Err <==> forall|i: int| !#[trigger] may_be_chosen(workers@, role, i),
{
    if r is Ok {
        lemma_offer(workers@, role, (r->Ok_0)@);
        lemma_some_offered(workers@, role, (r->Ok_0)@);
    } else {
        lemma_no_candidate(workers@, role);
        lemma_lack(workers@, role);
    }
}

proof fn lemma_lack(workers: Seq<Worker>, role: Role)
    ensures
        is_lack(workers, role, crate::worker::no_candidates(workers, role)),
{
    if crate::worker::role_is_staffed(workers, role) {
        let i = choose|i: int|
            0 <= i < workers.len() && crate::worker::has_role(#[trigger] workers[i], role);
        assert(is_of_role(workers[i], role));
    }
    if exists|i: int| 0 <= i < workers.len() && is_of_role(#[trigger] workers[i], role) {
        let i = choose|i: int| 0 <= i < workers.len() && is_of_role(#[trigger] workers[i], role);
        assert(crate::worker::has_role(workers[i], role));
    }
}

/// The choice of a pair starts with the offer of every available prefill worker.
pub proof fn law_a_pair_starts_with_the_prefill_workers(
    workers: &Vec<Worker>,
    r: Result<PrefillPick, String>,
)
    requires
        call_ensures(PDRouter::select_pd_pair, (workers,), r),
    ensures
        r is Ok ==> r->Ok_0.offered@.len() > 0 && is_offer(
            workers@,
            Role::Prefill,
            r->Ok_0.offered@,
        ),
        r is Err ==> is_lack(workers@, Role::Prefill, r->Err_0@),
        r is Err <==> forall|i: int| !#[trigger] may_be_chosen(workers@, Role::Prefill, i),
{
    if r is Ok {
        lemma_offer(workers@, Role::Prefill, r->Ok_0.offered@);
        lemma_some_offered(workers@, Role::Prefill, r->Ok_0.offered@);
    } else {
        lemma_lack(workers@, Role::Prefill);
        assert forall|i: int| !#[trigger] may_be_chosen(workers@, Role::Prefill, i) by {
            assert(!is_candidate(workers@, Role::Prefill, i));
        }
    }
}

/// The choice goes on with the prefill worker that the policy chose and the offer of
/// every available decode worker.
pub proof fn law_a_pair_goes_on_with_the_decode_workers(
    pick: PrefillPick,
    choice: Option<usize>,
    policy: &str,
    workers: &Vec<Worker>,
    r: Result<DecodePick, String>,
)
    requires
        call_ensures(PrefillPick::chosen, (pick, choice, policy, workers), r),
    ensures
        choice is None ==> r is Err && r->Err_0@ == "Policy "@ + policy@
            + " failed to select a prefill worker"@,
        r is Ok ==> choice is Some && r->Ok_0.prefill == pick.offered@[choice->0 as int]
            && r->Ok_0.offered@.len() > 0 && is_offer(workers@, Role::Decode, r->Ok_0.offered@),
        choice is Some && r is Err ==> is_lack(workers@, Role::Decode, r->Err_0@),
        choice is Some ==> (r is Err <==> forall|i: int|
            !#[trigger] may_be_chosen(workers@, Role::Decode, i)),
{
    reveal_strlit(" failed to select a prefill worker");
    reveal_strlit(" failed to select a ");
    reveal_strlit("prefill");
    reveal_strlit(" worker");
    if choice is None {
        assert(r->Err_0@ =~= "Policy "@ + policy@ + " failed to select a prefill worker"@);
    } else if r is Ok {
        lemma_offer(workers@, Role::Decode, r->Ok_0.offered@);
        lemma_some_offered(workers@, Role::Decode, r->Ok_0.offered@);
    } else {
        lemma_lack(workers@, Role::Decode);
        assert forall|i: int| !#[trigger] may_be_chosen(workers@, Role::Decode, i) by {
            assert(!is_candidate(workers@, Role::Decode, i));
        }
    }
}

/// The pair is the prefill worker that was chosen and the decode worker that the
/// policy chose of those that it was offered.
pub proof fn law_a_pair_is_what_the_policies_chose(
    pick: DecodePick,
    choice: Option<usize>,
    policy: &str,
    r: Result<(usize, usize), String>,
)
    requires
        call_ensures(DecodePick::chosen, (pick, choice, policy), r),
    ensures
        choice is Some ==> r is Ok && r->Ok_0.0 == pick.prefill && r->Ok_0.1
            == pick.offered@[choice->0 as int],
        choice is None ==> r is Err && r->Err_0@ == "Policy "@ + policy@
            + " failed to select a decode worker"@,
{
    reveal_strlit(" failed to select a decode worker");
    reveal_strlit(" failed to select a ");
    reveal_strlit("decode");
    reveal_strlit(" worker");
    if choice is None {
        assert(r->Err_0@ =~= "Policy "@ + policy@ + " failed to select a decode worker"@);
    }
}

/// A choice counts among the workers that were offered.
pub proof fn law_a_choice_counts_among_the_offered(
    offered: &Vec<usize>,
    choice: Option<usize>,
    policy: &str,
    role: Role,
    r: Result<usize, String>,
)
    requires
        call_ensures(chosen_worker, (offered, choice, policy, role), r),
    ensures
        choice is Some ==> r is Ok && r->Ok_0 == offered@[choice->0 as int],
        choice is None ==> r is Err && r->Err_0@ == "Policy "@ + policy@ + " failed to select a "@
            + called(role) + " worker"@,
{
}

/// A model narrows the choice if and only if several are served.
pub proof fn law_a_model_counts_where_several_are_served(
    router: &PDRouter,
    model_id: Option<&str>,
    r: Option<&str>,
)
    requires
        call_ensures(PDRouter::effective_model_id, (router, model_id), r),
    ensures
        !router.enable_igw ==> r is None,
        router.enable_igw ==> (r is Some <==> model_id is Some),
        router.enable_igw && r is Some ==> r->0@ == model_id->0@,
{
}

/// Whether a URL is that of an endpoint under a base: the base, one slash that the
/// endpoint may bring, and the endpoint.
pub open spec fn is_url_of(url: Seq<char>, base: Seq<char>, endpoint: Seq<char>) -> bool {
    if endpoint.len() > 0 && endpoint[0] == '/' {
        url == base + endpoint
    } else {
        url == base + seq!['/'] + endpoint
    }
}

/// The URL of an endpoint stands under the base URL of the worker.
pub proof fn law_endpoints_stand_under_the_base_url(worker: &Worker, endpoint: &str, r: String)
    requires
        call_ensures(PDRouter::worker_endpoint_url, (worker, endpoint), r),
    ensures
        is_url_of(r@, worker.base_url@, endpoint@),
{
    reveal_strlit("/");
    assert("/"@ =~= seq!['/']);
}

/// A proxied request goes to the first prefill worker, and is refused where there is none.
pub proof fn law_proxied_requests_go_to_the_first_worker(
    workers: &Vec<Worker>,
    endpoint: &str,
    r: Result<String, ErrorReply>,
)
    requires
        call_ensures(first_prefill_url, (workers, endpoint), r),
    ensures
        workers@.len() > 0 ==> r is Ok && is_url_of(r->Ok_0@, workers@[0].base_url@, endpoint@),
        workers@.len() == 0 ==> r is Err && r->Err_0.status == 503 && r->Err_0.code@
            == "no_prefill_servers"@ && r->Err_0.message@ == "No prefill servers available"@,
{
    reveal_strlit("/");
    assert("/"@ =~= seq!['/']);
    if r is Err {
        assert(r->Err_0@.status == r->Err_0.status);
    }
}

/// A worker is met at the port that its type carries, and nowhere where it is no
/// prefill worker.
pub proof fn law_a_worker_is_met_at_its_own_port(worker: &Worker, r: Option<u16>)
    requires
        call_ensures(Worker::bootstrap_port, (worker,), r),
    ensures
        forall|port: Option<u16>|
            worker.worker_type == (WorkerType::Prefill { bootstrap_port: port }) ==> r == port,
        worker.worker_type !is Prefill ==> r is None,
{
}

/// Roles are called prefill and decode.
pub proof fn law_roles_have_their_names(role: Role, r: &'static str)
    requires
        call_ensures(Role::name, (role,), r),
    ensures
        r@ == called(role),
{
}

} // verus!
