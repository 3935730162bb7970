//! Move requests for ghosts steered by an `AIController`.
use vstd::prelude::*;
use crate::ai_pawn::AIController;
use crate::events::MoveToEvent;
use crate::ghost::NavAgentInfo;
use crate::maze::Maze;

verus! {

/// The system that asks each ghost's controller for a new target once the
/// ghost has walked its path.
pub struct GhostAISystem;

/// A ghost entity and the controller that steers it.
pub struct ControlledGhost<C> {
    pub entity_id: u32,
    pub controller: C,
}

/// The agent exists and has walked its path.
pub open spec fn is_idle_agent(a: Option<NavAgentInfo>) -> bool {
    a is Some && a->0.is_idle
}

/// `r` holds, in order, one move request for every ghost among the first
/// `n` whose agent is idle: for that ghost, aimed at a cell that its
/// controller picks for the agent's cell in maze `nav`.
pub open spec fn ai_requests_ok<C: AIController>(
    r: Seq<MoveToEvent>,
    ghosts: Seq<ControlledGhost<C>>,
    agents: Seq<Option<NavAgentInfo>>,
    nav: Maze,
    n: int,
) -> bool
    decreases n,
{
    if n <= 0 {
        r.len() == 0
    } else if is_idle_agent(agents[n - 1]) {
        &&& r.len() > 0
        &&& r.last().entity_id == ghosts[n - 1].entity_id
        &&& ghosts[n - 1].controller.is_target(agents[n - 1]->0.current_cell, nav, r.last().target)
        &&& ai_requests_ok(r.drop_last(), ghosts, agents, nav, n - 1)
    } else {
        ai_requests_ok(r, ghosts, agents, nav, n - 1)
    }
}

impl GhostAISystem {
    /// One move request, in order, for every ghost whose agent (`agents[i]`
    /// belongs to `ghosts[i]`) is idle, aimed where its controller says.
    pub fn move_requests<C: AIController>(
        ghosts: &Vec<ControlledGhost<C>>,
        agents: &Vec<Option<NavAgentInfo>>,
        nav: &Maze,
    ) -> (r: Vec<MoveToEvent>)
        requires
            agents@.len() == ghosts@.len(),
        ensures
            ai_requests_ok(r@, ghosts@, agents@, *nav, ghosts@.len() as int),
    {
        let mut out: Vec<MoveToEvent> = Vec::new();
        let mut i: usize = 0;
        while i < ghosts.len()
            invariant
                i <= ghosts@.len(),
                agents@.len() == ghosts@.len(),
                ai_requests_ok(out@, ghosts@, agents@, *nav, i as int),
            decreases ghosts@.len() - i,
        {
            match agents[i] {
                Some(a) => {
                    if a.is_idle {
                        let target = ghosts[i].controller.target_tile(a.current_cell, nav);
                        let ghost prev = out@;
                        out.push(MoveToEvent { entity_id: ghosts[i].entity_id, target });
                        assert(out@.drop_last() == prev);
                    }
                },
                None => {},
            }
            i += 1;
        }
        out
    }
}

/// Some request in `r` asks the ghost to walk to a cell its controller picks
/// for the agent's cell.
pub open spec fn has_ai_request<C: AIController>(
    r: Seq<MoveToEvent>,
    g: ControlledGhost<C>,
    a: NavAgentInfo,
    nav: Maze,
) -> bool {
    exists|k: int|
        0 <= k < r.len() && (#[trigger] r[k]).entity_id == g.entity_id && g.controller.is_target(
            a.current_cell,
            nav,
            r[k].target,
        )
}

/// `e` asks some ghost among the first `n` with an idle agent to walk to a
/// cell its controller picks.
pub open spec fn steers_idle_ghost<C: AIController>(
    ghosts: Seq<ControlledGhost<C>>,
    agents: Seq<Option<NavAgentInfo>>,
    nav: Maze,
    n: int,
    e: MoveToEvent,
) -> bool {
    exists|i: int|
        0 <= i < n && agents[i] is Some && agents[i]->0.is_idle && e.entity_id
            == #[trigger] ghosts[i].entity_id && ghosts[i].controller.is_target(
            agents[i]->0.current_cell,
            nav,
            e.target,
        )
}

proof fn ai_request_source<C: AIController>(
    r: Seq<MoveToEvent>,
    ghosts: Seq<ControlledGhost<C>>,
    agents: Seq<Option<NavAgentInfo>>,
    nav: Maze,
    n: int,
    k: int,
) -> (i: int)
    requires
        0 <= n <= ghosts.len(),
        agents.len() == ghosts.len(),
        ai_requests_ok(r, ghosts, agents, nav, n),
        0 <= k < r.len(),
    ensures
        0 <= i < n,
        agents[i] is Some && agents[i]->0.is_idle,
        r[k].entity_id == ghosts[i].entity_id,
        ghosts[i].controller.is_target(agents[i]->0.current_cell, nav, r[k].target),
    decreases n,
{
    if is_idle_agent(agents[n - 1]) {
        if k == r.len() - 1 {
            n - 1
        } else {
            assert(r.drop_last()[k] == r[k]);
            ai_request_source(r.drop_last(), ghosts, agents, nav, n - 1, k)
        }
    } else {
        ai_request_source(r, ghosts, agents, nav, n - 1, k)
    }
}

proof fn ai_request_index<C: AIController>(
    r: Seq<MoveToEvent>,
    ghosts: Seq<ControlledGhost<C>>,
    agents: Seq<Option<NavAgentInfo>>,
    nav: Maze,
    n: int,
    i: int,
) -> (k: int)
    requires
        0 <= i < n <= ghosts.len(),
        agents.len() == ghosts.len(),
        ai_requests_ok(r, ghosts, agents, nav, n),
        agents[i] is Some && agents[i]->0.is_idle,
    ensures
        0 <= k < r.len(),
        r[k].entity_id == ghosts[i].entity_id,
        ghosts[i].controller.is_target(agents[i]->0.current_cell, nav, r[k].target),
    decreases n,
{
    if i == n - 1 {
        r.len() - 1
    } else if is_idle_agent(agents[n - 1]) {
        let k = ai_request_index(r.drop_last(), ghosts, agents, nav, n - 1, i);
        assert(r.drop_last()[k] == r[k]);
        k
    } else {
        ai_request_index(r, ghosts, agents, nav, n - 1, i)
    }
}

/// Exactly the ghosts whose agents are idle are steered, each to a cell its
/// own controller picks for its agent's cell.
pub proof fn lemma_ai_requests_exact<C: AIController>(
    r: Seq<MoveToEvent>,
    ghosts: Seq<ControlledGhost<C>>,
    agents: Seq<Option<NavAgentInfo>>,
    nav: Maze,
)
    requires
        agents.len() == ghosts.len(),
        ai_requests_ok(r, ghosts, agents, nav, ghosts.len() as int),
    ensures
        forall|i: int|
            0 <= i < ghosts.len() && agents[i] is Some && agents[i]->0.is_idle ==> has_ai_request(
                r,
                #[trigger] ghosts[i],
                agents[i]->0,
                nav,
            ),
        forall|k: int|
            0 <= k < r.len() ==> steers_idle_ghost(ghosts, agents, nav, ghosts.len() as int, #[trigger] r[k]),
{
    let n = ghosts.len() as int;
    assert forall|i: int| 0 <= i < n && agents[i] is Some && agents[i]->0.is_idle implies has_ai_request(
        r,
        #[trigger] ghosts[i],
        agents[i]->0,
        nav,
    ) by {
        let k = ai_request_index(r, ghosts, agents, nav, n, i);
    }
    assert forall|k: int| 0 <= k < r.len() implies steers_idle_ghost(
        ghosts,
        agents,
        nav,
        n,
        #[trigger] r[k],
    ) by {
        let i = ai_request_source(r, ghosts, agents, nav, n, k);
    }
}

} // verus!
